//! The enumerations of the binary form, each carried as an integer code.

use vstd::prelude::*;
use crate::{v1dot0, v1dot1, v1dot2};

verus! {

/// The category of an event, as a binary code.
#[derive(Debug, Copy, Clone, PartialEq, Eq, Structural)]
pub enum Category {
    Geo,
    Met,
    Safety,
    Security,
    Rescue,
    Fire,
    Health,
    Env,
    Transport,
    Infra,
    Cbrne,
    Other,
}

pub open spec fn category_of_code(c: i32) -> Option<Category> {
    if c == 0 {
        Some(Category::Geo)
    } else if c == 1 {
        Some(Category::Met)
    } else if c == 2 {
        Some(Category::Safety)
    } else if c == 3 {
        Some(Category::Security)
    } else if c == 4 {
        Some(Category::Rescue)
    } else if c == 5 {
        Some(Category::Fire)
    } else if c == 6 {
        Some(Category::Health)
    } else if c == 7 {
        Some(Category::Env)
    } else if c == 8 {
        Some(Category::Transport)
    } else if c == 9 {
        Some(Category::Infra)
    } else if c == 10 {
        Some(Category::Cbrne)
    } else if c == 11 {
        Some(Category::Other)
    } else {
        None
    }
}

pub open spec fn category_code(v: Category) -> i32 {
    match v {
        Category::Geo => 0,
        Category::Met => 1,
        Category::Safety => 2,
        Category::Security => 3,
        Category::Rescue => 4,
        Category::Fire => 5,
        Category::Health => 6,
        Category::Env => 7,
        Category::Transport => 8,
        Category::Infra => 9,
        Category::Cbrne => 10,
        Category::Other => 11,
    }
}

impl Category {
    /// The value with code `c`, if there is one.
    pub fn from_i32(c: i32) -> (r: Option<Category>)
        ensures
            r == category_of_code(c),
    {
        if c == 0 {
            Some(Category::Geo)
        } else if c == 1 {
            Some(Category::Met)
        } else if c == 2 {
            Some(Category::Safety)
        } else if c == 3 {
            Some(Category::Security)
        } else if c == 4 {
            Some(Category::Rescue)
        } else if c == 5 {
            Some(Category::Fire)
        } else if c == 6 {
            Some(Category::Health)
        } else if c == 7 {
            Some(Category::Env)
        } else if c == 8 {
            Some(Category::Transport)
        } else if c == 9 {
            Some(Category::Infra)
        } else if c == 10 {
            Some(Category::Cbrne)
        } else if c == 11 {
            Some(Category::Other)
        } else {
            None
        }
    }

    /// The value's code.
    pub fn code(self) -> (r: i32)
        ensures
            r == category_code(self),
    {
        match self {
            Category::Geo => 0,
            Category::Met => 1,
            Category::Safety => 2,
            Category::Security => 3,
            Category::Rescue => 4,
            Category::Fire => 5,
            Category::Health => 6,
            Category::Env => 7,
            Category::Transport => 8,
            Category::Infra => 9,
            Category::Cbrne => 10,
            Category::Other => 11,
        }
    }
}

/// Each value's code reads back as the value.
pub proof fn lemma_category_code_round_trip(v: Category)
    ensures
        category_of_code(category_code(v)) == Some(v),
{
}

/// A recommended response, as a binary code.
#[derive(Debug, Copy, Clone, PartialEq, Eq, Structural)]
pub enum ResponseType {
    Shelter,
    Evacuate,
    Prepare,
    Execute,
    Avoid,
    Monitor,
    Assess,
    AllClear,
    /// No action recommended (`None` in CAP text).
    NoAction,
}

pub open spec fn response_type_of_code(c: i32) -> Option<ResponseType> {
    if c == 0 {
        Some(ResponseType::Shelter)
    } else if c == 1 {
        Some(ResponseType::Evacuate)
    } else if c == 2 {
        Some(ResponseType::Prepare)
    } else if c == 3 {
        Some(ResponseType::Execute)
    } else if c == 4 {
        Some(ResponseType::Avoid)
    } else if c == 5 {
        Some(ResponseType::Monitor)
    } else if c == 6 {
        Some(ResponseType::Assess)
    } else if c == 7 {
        Some(ResponseType::AllClear)
    } else if c == 8 {
        Some(ResponseType::NoAction)
    } else {
        None
    }
}

pub open spec fn response_type_code(v: ResponseType) -> i32 {
    match v {
        ResponseType::Shelter => 0,
        ResponseType::Evacuate => 1,
        ResponseType::Prepare => 2,
        ResponseType::Execute => 3,
        ResponseType::Avoid => 4,
        ResponseType::Monitor => 5,
        ResponseType::Assess => 6,
        ResponseType::AllClear => 7,
        ResponseType::NoAction => 8,
    }
}

impl ResponseType {
    /// The value with code `c`, if there is one.
    pub fn from_i32(c: i32) -> (r: Option<ResponseType>)
        ensures
            r == response_type_of_code(c),
    {
        if c == 0 {
            Some(ResponseType::Shelter)
        } else if c == 1 {
            Some(ResponseType::Evacuate)
        } else if c == 2 {
            Some(ResponseType::Prepare)
        } else if c == 3 {
            Some(ResponseType::Execute)
        } else if c == 4 {
            Some(ResponseType::Avoid)
        } else if c == 5 {
            Some(ResponseType::Monitor)
        } else if c == 6 {
            Some(ResponseType::Assess)
        } else if c == 7 {
            Some(ResponseType::AllClear)
        } else if c == 8 {
            Some(ResponseType::NoAction)
        } else {
            None
        }
    }

    /// The value's code.
    pub fn code(self) -> (r: i32)
        ensures
            r == response_type_code(self),
    {
        match self {
            ResponseType::Shelter => 0,
            ResponseType::Evacuate => 1,
            ResponseType::Prepare => 2,
            ResponseType::Execute => 3,
            ResponseType::Avoid => 4,
            ResponseType::Monitor => 5,
            ResponseType::Assess => 6,
            ResponseType::AllClear => 7,
            ResponseType::NoAction => 8,
        }
    }
}

/// Each value's code reads back as the value.
pub proof fn lemma_response_type_code_round_trip(v: ResponseType)
    ensures
        response_type_of_code(response_type_code(v)) == Some(v),
{
}

/// The urgency of an event, as a binary code.
#[derive(Debug, Copy, Clone, PartialEq, Eq, Structural)]
pub enum Urgency {
    Immediate,
    Expected,
    Future,
    Past,
    UnknownUrgency,
}

pub open spec fn urgency_of_code(c: i32) -> Option<Urgency> {
    if c == 0 {
        Some(Urgency::Immediate)
    } else if c == 1 {
        Some(Urgency::Expected)
    } else if c == 2 {
        Some(Urgency::Future)
    } else if c == 3 {
        Some(Urgency::Past)
    } else if c == 4 {
        Some(Urgency::UnknownUrgency)
    } else {
        None
    }
}

pub open spec fn urgency_code(v: Urgency) -> i32 {
    match v {
        Urgency::Immediate => 0,
        Urgency::Expected => 1,
        Urgency::Future => 2,
        Urgency::Past => 3,
        Urgency::UnknownUrgency => 4,
    }
}

impl Urgency {
    /// The value with code `c`, if there is one.
    pub fn from_i32(c: i32) -> (r: Option<Urgency>)
        ensures
            r == urgency_of_code(c),
    {
        if c == 0 {
            Some(Urgency::Immediate)
        } else if c == 1 {
            Some(Urgency::Expected)
        } else if c == 2 {
            Some(Urgency::Future)
        } else if c == 3 {
            Some(Urgency::Past)
        } else if c == 4 {
            Some(Urgency::UnknownUrgency)
        } else {
            None
        }
    }

    /// The value's code.
    pub fn code(self) -> (r: i32)
        ensures
            r == urgency_code(self),
    {
        match self {
            Urgency::Immediate => 0,
            Urgency::Expected => 1,
            Urgency::Future => 2,
            Urgency::Past => 3,
            Urgency::UnknownUrgency => 4,
        }
    }
}

/// Each value's code reads back as the value.
pub proof fn lemma_urgency_code_round_trip(v: Urgency)
    ensures
        urgency_of_code(urgency_code(v)) == Some(v),
{
}

/// The severity of an event, as a binary code.
#[derive(Debug, Copy, Clone, PartialEq, Eq, Structural)]
pub enum Severity {
    Extreme,
    Severe,
    Moderate,
    Minor,
    UnknownSeverity,
}

pub open spec fn severity_of_code(c: i32) -> Option<Severity> {
    if c == 0 {
        Some(Severity::Extreme)
    } else if c == 1 {
        Some(Severity::Severe)
    } else if c == 2 {
        Some(Severity::Moderate)
    } else if c == 3 {
        Some(Severity::Minor)
    } else if c == 4 {
        Some(Severity::UnknownSeverity)
    } else {
        None
    }
}

pub open spec fn severity_code(v: Severity) -> i32 {
    match v {
        Severity::Extreme => 0,
        Severity::Severe => 1,
        Severity::Moderate => 2,
        Severity::Minor => 3,
        Severity::UnknownSeverity => 4,
    }
}

impl Severity {
    /// The value with code `c`, if there is one.
    pub fn from_i32(c: i32) -> (r: Option<Severity>)
        ensures
            r == severity_of_code(c),
    {
        if c == 0 {
            Some(Severity::Extreme)
        } else if c == 1 {
            Some(Severity::Severe)
        } else if c == 2 {
            Some(Severity::Moderate)
        } else if c == 3 {
            Some(Severity::Minor)
        } else if c == 4 {
            Some(Severity::UnknownSeverity)
        } else {
            None
        }
    }

    /// The value's code.
    pub fn code(self) -> (r: i32)
        ensures
            r == severity_code(self),
    {
        match self {
            Severity::Extreme => 0,
            Severity::Severe => 1,
            Severity::Moderate => 2,
            Severity::Minor => 3,
            Severity::UnknownSeverity => 4,
        }
    }
}

/// Each value's code reads back as the value.
pub proof fn lemma_severity_code_round_trip(v: Severity)
    ensures
        severity_of_code(severity_code(v)) == Some(v),
{
}

/// The certainty of an event, as a binary code.
#[derive(Debug, Copy, Clone, PartialEq, Eq, Structural)]
pub enum Certainty {
    Observed,
    VeryLikely,
    Likely,
    Possible,
    Unlikely,
    UnknownCertainty,
}

pub open spec fn certainty_of_code(c: i32) -> Option<Certainty> {
    if c == 0 {
        Some(Certainty::Observed)
    } else if c == 1 {
        Some(Certainty::VeryLikely)
    } else if c == 2 {
        Some(Certainty::Likely)
    } else if c == 3 {
        Some(Certainty::Possible)
    } else if c == 4 {
        Some(Certainty::Unlikely)
    } else if c == 5 {
        Some(Certainty::UnknownCertainty)
    } else {
        None
    }
}

pub open spec fn certainty_code(v: Certainty) -> i32 {
    match v {
        Certainty::Observed => 0,
        Certainty::VeryLikely => 1,
        Certainty::Likely => 2,
        Certainty::Possible => 3,
        Certainty::Unlikely => 4,
        Certainty::UnknownCertainty => 5,
    }
}

impl Certainty {
    /// The value with code `c`, if there is one.
    pub fn from_i32(c: i32) -> (r: Option<Certainty>)
        ensures
            r == certainty_of_code(c),
    {
        if c == 0 {
            Some(Certainty::Observed)
        } else if c == 1 {
            Some(Certainty::VeryLikely)
        } else if c == 2 {
            Some(Certainty::Likely)
        } else if c == 3 {
            Some(Certainty::Possible)
        } else if c == 4 {
            Some(Certainty::Unlikely)
        } else if c == 5 {
            Some(Certainty::UnknownCertainty)
        } else {
            None
        }
    }

    /// The value's code.
    pub fn code(self) -> (r: i32)
        ensures
            r == certainty_code(self),
    {
        match self {
            Certainty::Observed => 0,
            Certainty::VeryLikely => 1,
            Certainty::Likely => 2,
            Certainty::Possible => 3,
            Certainty::Unlikely => 4,
            Certainty::UnknownCertainty => 5,
        }
    }
}

/// Each value's code reads back as the value.
pub proof fn lemma_certainty_code_round_trip(v: Certainty)
    ensures
        certainty_of_code(certainty_code(v)) == Some(v),
{
}

/// The handling code of an alert, as a binary code.
#[derive(Debug, Copy, Clone, PartialEq, Eq, Structural)]
pub enum Status {
    Actual,
    Exercise,
    System,
    Test,
    Draft,
}

pub open spec fn status_of_code(c: i32) -> Option<Status> {
    if c == 0 {
        Some(Status::Actual)
    } else if c == 1 {
        Some(Status::Exercise)
    } else if c == 2 {
        Some(Status::System)
    } else if c == 3 {
        Some(Status::Test)
    } else if c == 4 {
        Some(Status::Draft)
    } else {
        None
    }
}

pub open spec fn status_code(v: Status) -> i32 {
    match v {
        Status::Actual => 0,
        Status::Exercise => 1,
        Status::System => 2,
        Status::Test => 3,
        Status::Draft => 4,
    }
}

impl Status {
    /// The value with code `c`, if there is one.
    pub fn from_i32(c: i32) -> (r: Option<Status>)
        ensures
            r == status_of_code(c),
    {
        if c == 0 {
            Some(Status::Actual)
        } else if c == 1 {
            Some(Status::Exercise)
        } else if c == 2 {
            Some(Status::System)
        } else if c == 3 {
            Some(Status::Test)
        } else if c == 4 {
            Some(Status::Draft)
        } else {
            None
        }
    }

    /// The value's code.
    pub fn code(self) -> (r: i32)
        ensures
            r == status_code(self),
    {
        match self {
            Status::Actual => 0,
            Status::Exercise => 1,
            Status::System => 2,
            Status::Test => 3,
            Status::Draft => 4,
        }
    }
}

/// Each value's code reads back as the value.
pub proof fn lemma_status_code_round_trip(v: Status)
    ensures
        status_of_code(status_code(v)) == Some(v),
{
}

/// The nature of an alert, as a binary code.
#[derive(Debug, Copy, Clone, PartialEq, Eq, Structural)]
pub enum MsgType {
    Alert,
    Update,
    Cancel,
    Ack,
    Error,
}

pub open spec fn msg_type_of_code(c: i32) -> Option<MsgType> {
    if c == 0 {
        Some(MsgType::Alert)
    } else if c == 1 {
        Some(MsgType::Update)
    } else if c == 2 {
        Some(MsgType::Cancel)
    } else if c == 3 {
        Some(MsgType::Ack)
    } else if c == 4 {
        Some(MsgType::Error)
    } else {
        None
    }
}

pub open spec fn msg_type_code(v: MsgType) -> i32 {
    match v {
        MsgType::Alert => 0,
        MsgType::Update => 1,
        MsgType::Cancel => 2,
        MsgType::Ack => 3,
        MsgType::Error => 4,
    }
}

impl MsgType {
    /// The value with code `c`, if there is one.
    pub fn from_i32(c: i32) -> (r: Option<MsgType>)
        ensures
            r == msg_type_of_code(c),
    {
        if c == 0 {
            Some(MsgType::Alert)
        } else if c == 1 {
            Some(MsgType::Update)
        } else if c == 2 {
            Some(MsgType::Cancel)
        } else if c == 3 {
            Some(MsgType::Ack)
        } else if c == 4 {
            Some(MsgType::Error)
        } else {
            None
        }
    }

    /// The value's code.
    pub fn code(self) -> (r: i32)
        ensures
            r == msg_type_code(self),
    {
        match self {
            MsgType::Alert => 0,
            MsgType::Update => 1,
            MsgType::Cancel => 2,
            MsgType::Ack => 3,
            MsgType::Error => 4,
        }
    }
}

/// Each value's code reads back as the value.
pub proof fn lemma_msg_type_code_round_trip(v: MsgType)
    ensures
        msg_type_of_code(msg_type_code(v)) == Some(v),
{
}

/// The distribution of an alert, as a binary code.
#[derive(Debug, Copy, Clone, PartialEq, Eq, Structural)]
pub enum Scope {
    Public,
    Restricted,
    Private,
}

pub open spec fn scope_of_code(c: i32) -> Option<Scope> {
    if c == 0 {
        Some(Scope::Public)
    } else if c == 1 {
        Some(Scope::Restricted)
    } else if c == 2 {
        Some(Scope::Private)
    } else {
        None
    }
}

pub open spec fn scope_code(v: Scope) -> i32 {
    match v {
        Scope::Public => 0,
        Scope::Restricted => 1,
        Scope::Private => 2,
    }
}

impl Scope {
    /// The value with code `c`, if there is one.
    pub fn from_i32(c: i32) -> (r: Option<Scope>)
        ensures
            r == scope_of_code(c),
    {
        if c == 0 {
            Some(Scope::Public)
        } else if c == 1 {
            Some(Scope::Restricted)
        } else if c == 2 {
            Some(Scope::Private)
        } else {
            None
        }
    }

    /// The value's code.
    pub fn code(self) -> (r: i32)
        ensures
            r == scope_code(self),
    {
        match self {
            Scope::Public => 0,
            Scope::Restricted => 1,
            Scope::Private => 2,
        }
    }
}

/// Each value's code reads back as the value.
pub proof fn lemma_scope_code_round_trip(v: Scope)
    ensures
        scope_of_code(scope_code(v)) == Some(v),
{
}

/// The dialect value for a binary one; `Err` holds a value the dialect cannot represent.
pub open spec fn spec_category_to_v1dot0(v: Category) -> Result<v1dot0::Category, Category> {
    match v {
        Category::Geo => Ok(v1dot0::Category::Geo),
        Category::Met => Ok(v1dot0::Category::Met),
        Category::Safety => Ok(v1dot0::Category::Safety),
        Category::Security => Ok(v1dot0::Category::Security),
        Category::Rescue => Ok(v1dot0::Category::Rescue),
        Category::Fire => Ok(v1dot0::Category::Fire),
        Category::Health => Ok(v1dot0::Category::Health),
        Category::Env => Ok(v1dot0::Category::Env),
        Category::Transport => Ok(v1dot0::Category::Transport),
        Category::Infra => Ok(v1dot0::Category::Infra),
        Category::Cbrne => Err(Category::Cbrne),
        Category::Other => Ok(v1dot0::Category::Other),
    }
}

/// The dialect value for a binary one; `Err` holds a value the dialect cannot represent.
pub fn category_to_v1dot0(v: Category) -> (r: Result<v1dot0::Category, Category>)
    ensures
        r == spec_category_to_v1dot0(v),
{
    match v {
        Category::Geo => Ok(v1dot0::Category::Geo),
        Category::Met => Ok(v1dot0::Category::Met),
        Category::Safety => Ok(v1dot0::Category::Safety),
        Category::Security => Ok(v1dot0::Category::Security),
        Category::Rescue => Ok(v1dot0::Category::Rescue),
        Category::Fire => Ok(v1dot0::Category::Fire),
        Category::Health => Ok(v1dot0::Category::Health),
        Category::Env => Ok(v1dot0::Category::Env),
        Category::Transport => Ok(v1dot0::Category::Transport),
        Category::Infra => Ok(v1dot0::Category::Infra),
        Category::Cbrne => Err(Category::Cbrne),
        Category::Other => Ok(v1dot0::Category::Other),
    }
}

/// The dialect value for a binary one.
pub open spec fn spec_category_to_v1dot1(v: Category) -> v1dot1::Category {
    match v {
        Category::Geo => v1dot1::Category::Geo,
        Category::Met => v1dot1::Category::Met,
        Category::Safety => v1dot1::Category::Safety,
        Category::Security => v1dot1::Category::Security,
        Category::Rescue => v1dot1::Category::Rescue,
        Category::Fire => v1dot1::Category::Fire,
        Category::Health => v1dot1::Category::Health,
        Category::Env => v1dot1::Category::Env,
        Category::Transport => v1dot1::Category::Transport,
        Category::Infra => v1dot1::Category::Infra,
        Category::Cbrne => v1dot1::Category::CBRNE,
        Category::Other => v1dot1::Category::Other,
    }
}

/// The dialect value for a binary one.
pub fn category_to_v1dot1(v: Category) -> (r: v1dot1::Category)
    ensures
        r == spec_category_to_v1dot1(v),
{
    match v {
        Category::Geo => v1dot1::Category::Geo,
        Category::Met => v1dot1::Category::Met,
        Category::Safety => v1dot1::Category::Safety,
        Category::Security => v1dot1::Category::Security,
        Category::Rescue => v1dot1::Category::Rescue,
        Category::Fire => v1dot1::Category::Fire,
        Category::Health => v1dot1::Category::Health,
        Category::Env => v1dot1::Category::Env,
        Category::Transport => v1dot1::Category::Transport,
        Category::Infra => v1dot1::Category::Infra,
        Category::Cbrne => v1dot1::Category::CBRNE,
        Category::Other => v1dot1::Category::Other,
    }
}

/// The dialect value for a binary one; `Err` holds a value the dialect cannot represent.
pub open spec fn spec_response_type_to_v1dot1(v: ResponseType) -> Result<v1dot1::ResponseType, ResponseType> {
    match v {
        ResponseType::Shelter => Ok(v1dot1::ResponseType::Shelter),
        ResponseType::Evacuate => Ok(v1dot1::ResponseType::Evacuate),
        ResponseType::Prepare => Ok(v1dot1::ResponseType::Prepare),
        ResponseType::Execute => Ok(v1dot1::ResponseType::Execute),
        ResponseType::Avoid => Err(ResponseType::Avoid),
        ResponseType::Monitor => Ok(v1dot1::ResponseType::Monitor),
        ResponseType::Assess => Ok(v1dot1::ResponseType::Assess),
        ResponseType::AllClear => Err(ResponseType::AllClear),
        ResponseType::NoAction => Ok(v1dot1::ResponseType::NoAction),
    }
}

/// The dialect value for a binary one; `Err` holds a value the dialect cannot represent.
pub fn response_type_to_v1dot1(v: ResponseType) -> (r: Result<v1dot1::ResponseType, ResponseType>)
    ensures
        r == spec_response_type_to_v1dot1(v),
{
    match v {
        ResponseType::Shelter => Ok(v1dot1::ResponseType::Shelter),
        ResponseType::Evacuate => Ok(v1dot1::ResponseType::Evacuate),
        ResponseType::Prepare => Ok(v1dot1::ResponseType::Prepare),
        ResponseType::Execute => Ok(v1dot1::ResponseType::Execute),
        ResponseType::Avoid => Err(ResponseType::Avoid),
        ResponseType::Monitor => Ok(v1dot1::ResponseType::Monitor),
        ResponseType::Assess => Ok(v1dot1::ResponseType::Assess),
        ResponseType::AllClear => Err(ResponseType::AllClear),
        ResponseType::NoAction => Ok(v1dot1::ResponseType::NoAction),
    }
}

/// The dialect value for a binary one.
pub open spec fn spec_response_type_to_v1dot2(v: ResponseType) -> v1dot2::ResponseType {
    match v {
        ResponseType::Shelter => v1dot2::ResponseType::Shelter,
        ResponseType::Evacuate => v1dot2::ResponseType::Evacuate,
        ResponseType::Prepare => v1dot2::ResponseType::Prepare,
        ResponseType::Execute => v1dot2::ResponseType::Execute,
        ResponseType::Avoid => v1dot2::ResponseType::Avoid,
        ResponseType::Monitor => v1dot2::ResponseType::Monitor,
        ResponseType::Assess => v1dot2::ResponseType::Assess,
        ResponseType::AllClear => v1dot2::ResponseType::AllClear,
        ResponseType::NoAction => v1dot2::ResponseType::NoAction,
    }
}

/// The dialect value for a binary one.
pub fn response_type_to_v1dot2(v: ResponseType) -> (r: v1dot2::ResponseType)
    ensures
        r == spec_response_type_to_v1dot2(v),
{
    match v {
        ResponseType::Shelter => v1dot2::ResponseType::Shelter,
        ResponseType::Evacuate => v1dot2::ResponseType::Evacuate,
        ResponseType::Prepare => v1dot2::ResponseType::Prepare,
        ResponseType::Execute => v1dot2::ResponseType::Execute,
        ResponseType::Avoid => v1dot2::ResponseType::Avoid,
        ResponseType::Monitor => v1dot2::ResponseType::Monitor,
        ResponseType::Assess => v1dot2::ResponseType::Assess,
        ResponseType::AllClear => v1dot2::ResponseType::AllClear,
        ResponseType::NoAction => v1dot2::ResponseType::NoAction,
    }
}

/// The dialect value for a binary one.
pub open spec fn spec_urgency_to_v1dot0(v: Urgency) -> v1dot0::Urgency {
    match v {
        Urgency::Immediate => v1dot0::Urgency::Immediate,
        Urgency::Expected => v1dot0::Urgency::Expected,
        Urgency::Future => v1dot0::Urgency::Future,
        Urgency::Past => v1dot0::Urgency::Past,
        Urgency::UnknownUrgency => v1dot0::Urgency::Unknown,
    }
}

/// The dialect value for a binary one.
pub fn urgency_to_v1dot0(v: Urgency) -> (r: v1dot0::Urgency)
    ensures
        r == spec_urgency_to_v1dot0(v),
{
    match v {
        Urgency::Immediate => v1dot0::Urgency::Immediate,
        Urgency::Expected => v1dot0::Urgency::Expected,
        Urgency::Future => v1dot0::Urgency::Future,
        Urgency::Past => v1dot0::Urgency::Past,
        Urgency::UnknownUrgency => v1dot0::Urgency::Unknown,
    }
}

/// The dialect value for a binary one.
pub open spec fn spec_severity_to_v1dot0(v: Severity) -> v1dot0::Severity {
    match v {
        Severity::Extreme => v1dot0::Severity::Extreme,
        Severity::Severe => v1dot0::Severity::Severe,
        Severity::Moderate => v1dot0::Severity::Moderate,
        Severity::Minor => v1dot0::Severity::Minor,
        Severity::UnknownSeverity => v1dot0::Severity::Unknown,
    }
}

/// The dialect value for a binary one.
pub fn severity_to_v1dot0(v: Severity) -> (r: v1dot0::Severity)
    ensures
        r == spec_severity_to_v1dot0(v),
{
    match v {
        Severity::Extreme => v1dot0::Severity::Extreme,
        Severity::Severe => v1dot0::Severity::Severe,
        Severity::Moderate => v1dot0::Severity::Moderate,
        Severity::Minor => v1dot0::Severity::Minor,
        Severity::UnknownSeverity => v1dot0::Severity::Unknown,
    }
}

/// The dialect value for a binary one; `Err` holds a value the dialect cannot represent.
pub open spec fn spec_certainty_to_v1dot0(v: Certainty) -> Result<v1dot0::Certainty, Certainty> {
    match v {
        Certainty::Observed => Err(Certainty::Observed),
        Certainty::VeryLikely => Ok(v1dot0::Certainty::VeryLikely),
        Certainty::Likely => Ok(v1dot0::Certainty::Likely),
        Certainty::Possible => Ok(v1dot0::Certainty::Possible),
        Certainty::Unlikely => Ok(v1dot0::Certainty::Unlikely),
        Certainty::UnknownCertainty => Ok(v1dot0::Certainty::Unknown),
    }
}

/// The dialect value for a binary one; `Err` holds a value the dialect cannot represent.
pub fn certainty_to_v1dot0(v: Certainty) -> (r: Result<v1dot0::Certainty, Certainty>)
    ensures
        r == spec_certainty_to_v1dot0(v),
{
    match v {
        Certainty::Observed => Err(Certainty::Observed),
        Certainty::VeryLikely => Ok(v1dot0::Certainty::VeryLikely),
        Certainty::Likely => Ok(v1dot0::Certainty::Likely),
        Certainty::Possible => Ok(v1dot0::Certainty::Possible),
        Certainty::Unlikely => Ok(v1dot0::Certainty::Unlikely),
        Certainty::UnknownCertainty => Ok(v1dot0::Certainty::Unknown),
    }
}

/// The dialect value for a binary one.
pub open spec fn spec_certainty_to_v1dot1(v: Certainty) -> v1dot1::Certainty {
    match v {
        Certainty::Observed => v1dot1::Certainty::Observed,
        Certainty::VeryLikely => v1dot1::Certainty::Likely,
        Certainty::Likely => v1dot1::Certainty::Likely,
        Certainty::Possible => v1dot1::Certainty::Possible,
        Certainty::Unlikely => v1dot1::Certainty::Unlikely,
        Certainty::UnknownCertainty => v1dot1::Certainty::Unknown,
    }
}

/// The dialect value for a binary one.
pub fn certainty_to_v1dot1(v: Certainty) -> (r: v1dot1::Certainty)
    ensures
        r == spec_certainty_to_v1dot1(v),
{
    match v {
        Certainty::Observed => v1dot1::Certainty::Observed,
        Certainty::VeryLikely => v1dot1::Certainty::Likely,
        Certainty::Likely => v1dot1::Certainty::Likely,
        Certainty::Possible => v1dot1::Certainty::Possible,
        Certainty::Unlikely => v1dot1::Certainty::Unlikely,
        Certainty::UnknownCertainty => v1dot1::Certainty::Unknown,
    }
}

/// The dialect value for a binary one; `Err` holds a value the dialect cannot represent.
pub open spec fn spec_status_to_v1dot0(v: Status) -> Result<v1dot0::Status, Status> {
    match v {
        Status::Actual => Ok(v1dot0::Status::Actual),
        Status::Exercise => Ok(v1dot0::Status::Exercise),
        Status::System => Ok(v1dot0::Status::System),
        Status::Test => Ok(v1dot0::Status::Test),
        Status::Draft => Err(Status::Draft),
    }
}

/// The dialect value for a binary one; `Err` holds a value the dialect cannot represent.
pub fn status_to_v1dot0(v: Status) -> (r: Result<v1dot0::Status, Status>)
    ensures
        r == spec_status_to_v1dot0(v),
{
    match v {
        Status::Actual => Ok(v1dot0::Status::Actual),
        Status::Exercise => Ok(v1dot0::Status::Exercise),
        Status::System => Ok(v1dot0::Status::System),
        Status::Test => Ok(v1dot0::Status::Test),
        Status::Draft => Err(Status::Draft),
    }
}

/// The dialect value for a binary one.
pub open spec fn spec_status_to_v1dot1(v: Status) -> v1dot1::Status {
    match v {
        Status::Actual => v1dot1::Status::Actual,
        Status::Exercise => v1dot1::Status::Exercise,
        Status::System => v1dot1::Status::System,
        Status::Test => v1dot1::Status::Test,
        Status::Draft => v1dot1::Status::Draft,
    }
}

/// The dialect value for a binary one.
pub fn status_to_v1dot1(v: Status) -> (r: v1dot1::Status)
    ensures
        r == spec_status_to_v1dot1(v),
{
    match v {
        Status::Actual => v1dot1::Status::Actual,
        Status::Exercise => v1dot1::Status::Exercise,
        Status::System => v1dot1::Status::System,
        Status::Test => v1dot1::Status::Test,
        Status::Draft => v1dot1::Status::Draft,
    }
}

/// The dialect value for a binary one.
pub open spec fn spec_msg_type_to_v1dot0(v: MsgType) -> v1dot0::MessageType {
    match v {
        MsgType::Alert => v1dot0::MessageType::Alert,
        MsgType::Update => v1dot0::MessageType::Update,
        MsgType::Cancel => v1dot0::MessageType::Cancel,
        MsgType::Ack => v1dot0::MessageType::Ack,
        MsgType::Error => v1dot0::MessageType::Error,
    }
}

/// The dialect value for a binary one.
pub fn msg_type_to_v1dot0(v: MsgType) -> (r: v1dot0::MessageType)
    ensures
        r == spec_msg_type_to_v1dot0(v),
{
    match v {
        MsgType::Alert => v1dot0::MessageType::Alert,
        MsgType::Update => v1dot0::MessageType::Update,
        MsgType::Cancel => v1dot0::MessageType::Cancel,
        MsgType::Ack => v1dot0::MessageType::Ack,
        MsgType::Error => v1dot0::MessageType::Error,
    }
}

/// The dialect value for a binary one.
pub open spec fn spec_scope_to_v1dot0(v: Scope) -> v1dot0::Scope {
    match v {
        Scope::Public => v1dot0::Scope::Public,
        Scope::Restricted => v1dot0::Scope::Restricted,
        Scope::Private => v1dot0::Scope::Private,
    }
}

/// The dialect value for a binary one.
pub fn scope_to_v1dot0(v: Scope) -> (r: v1dot0::Scope)
    ensures
        r == spec_scope_to_v1dot0(v),
{
    match v {
        Scope::Public => v1dot0::Scope::Public,
        Scope::Restricted => v1dot0::Scope::Restricted,
        Scope::Private => v1dot0::Scope::Private,
    }
}

/// The binary value for a dialect one.
pub open spec fn spec_category_from_v1dot0(v: v1dot0::Category) -> Category {
    match v {
        v1dot0::Category::Geo => Category::Geo,
        v1dot0::Category::Met => Category::Met,
        v1dot0::Category::Safety => Category::Safety,
        v1dot0::Category::Security => Category::Security,
        v1dot0::Category::Rescue => Category::Rescue,
        v1dot0::Category::Fire => Category::Fire,
        v1dot0::Category::Health => Category::Health,
        v1dot0::Category::Env => Category::Env,
        v1dot0::Category::Transport => Category::Transport,
        v1dot0::Category::Infra => Category::Infra,
        v1dot0::Category::Other => Category::Other,
    }
}

/// The binary value for a dialect one.
pub fn category_from_v1dot0(v: v1dot0::Category) -> (r: Category)
    ensures
        r == spec_category_from_v1dot0(v),
{
    match v {
        v1dot0::Category::Geo => Category::Geo,
        v1dot0::Category::Met => Category::Met,
        v1dot0::Category::Safety => Category::Safety,
        v1dot0::Category::Security => Category::Security,
        v1dot0::Category::Rescue => Category::Rescue,
        v1dot0::Category::Fire => Category::Fire,
        v1dot0::Category::Health => Category::Health,
        v1dot0::Category::Env => Category::Env,
        v1dot0::Category::Transport => Category::Transport,
        v1dot0::Category::Infra => Category::Infra,
        v1dot0::Category::Other => Category::Other,
    }
}

/// The binary value for a dialect one.
pub open spec fn spec_category_from_v1dot1(v: v1dot1::Category) -> Category {
    match v {
        v1dot1::Category::Geo => Category::Geo,
        v1dot1::Category::Met => Category::Met,
        v1dot1::Category::Safety => Category::Safety,
        v1dot1::Category::Security => Category::Security,
        v1dot1::Category::Rescue => Category::Rescue,
        v1dot1::Category::Fire => Category::Fire,
        v1dot1::Category::Health => Category::Health,
        v1dot1::Category::Env => Category::Env,
        v1dot1::Category::Transport => Category::Transport,
        v1dot1::Category::Infra => Category::Infra,
        v1dot1::Category::CBRNE => Category::Cbrne,
        v1dot1::Category::Other => Category::Other,
    }
}

/// The binary value for a dialect one.
pub fn category_from_v1dot1(v: v1dot1::Category) -> (r: Category)
    ensures
        r == spec_category_from_v1dot1(v),
{
    match v {
        v1dot1::Category::Geo => Category::Geo,
        v1dot1::Category::Met => Category::Met,
        v1dot1::Category::Safety => Category::Safety,
        v1dot1::Category::Security => Category::Security,
        v1dot1::Category::Rescue => Category::Rescue,
        v1dot1::Category::Fire => Category::Fire,
        v1dot1::Category::Health => Category::Health,
        v1dot1::Category::Env => Category::Env,
        v1dot1::Category::Transport => Category::Transport,
        v1dot1::Category::Infra => Category::Infra,
        v1dot1::Category::CBRNE => Category::Cbrne,
        v1dot1::Category::Other => Category::Other,
    }
}

/// The binary value for a dialect one.
pub open spec fn spec_response_type_from_v1dot1(v: v1dot1::ResponseType) -> ResponseType {
    match v {
        v1dot1::ResponseType::Shelter => ResponseType::Shelter,
        v1dot1::ResponseType::Evacuate => ResponseType::Evacuate,
        v1dot1::ResponseType::Prepare => ResponseType::Prepare,
        v1dot1::ResponseType::Execute => ResponseType::Execute,
        v1dot1::ResponseType::Monitor => ResponseType::Monitor,
        v1dot1::ResponseType::Assess => ResponseType::Assess,
        v1dot1::ResponseType::NoAction => ResponseType::NoAction,
    }
}

/// The binary value for a dialect one.
pub fn response_type_from_v1dot1(v: v1dot1::ResponseType) -> (r: ResponseType)
    ensures
        r == spec_response_type_from_v1dot1(v),
{
    match v {
        v1dot1::ResponseType::Shelter => ResponseType::Shelter,
        v1dot1::ResponseType::Evacuate => ResponseType::Evacuate,
        v1dot1::ResponseType::Prepare => ResponseType::Prepare,
        v1dot1::ResponseType::Execute => ResponseType::Execute,
        v1dot1::ResponseType::Monitor => ResponseType::Monitor,
        v1dot1::ResponseType::Assess => ResponseType::Assess,
        v1dot1::ResponseType::NoAction => ResponseType::NoAction,
    }
}

/// The binary value for a dialect one.
pub open spec fn spec_response_type_from_v1dot2(v: v1dot2::ResponseType) -> ResponseType {
    match v {
        v1dot2::ResponseType::Shelter => ResponseType::Shelter,
        v1dot2::ResponseType::Evacuate => ResponseType::Evacuate,
        v1dot2::ResponseType::Prepare => ResponseType::Prepare,
        v1dot2::ResponseType::Execute => ResponseType::Execute,
        v1dot2::ResponseType::Avoid => ResponseType::Avoid,
        v1dot2::ResponseType::Monitor => ResponseType::Monitor,
        v1dot2::ResponseType::Assess => ResponseType::Assess,
        v1dot2::ResponseType::AllClear => ResponseType::AllClear,
        v1dot2::ResponseType::NoAction => ResponseType::NoAction,
    }
}

/// The binary value for a dialect one.
pub fn response_type_from_v1dot2(v: v1dot2::ResponseType) -> (r: ResponseType)
    ensures
        r == spec_response_type_from_v1dot2(v),
{
    match v {
        v1dot2::ResponseType::Shelter => ResponseType::Shelter,
        v1dot2::ResponseType::Evacuate => ResponseType::Evacuate,
        v1dot2::ResponseType::Prepare => ResponseType::Prepare,
        v1dot2::ResponseType::Execute => ResponseType::Execute,
        v1dot2::ResponseType::Avoid => ResponseType::Avoid,
        v1dot2::ResponseType::Monitor => ResponseType::Monitor,
        v1dot2::ResponseType::Assess => ResponseType::Assess,
        v1dot2::ResponseType::AllClear => ResponseType::AllClear,
        v1dot2::ResponseType::NoAction => ResponseType::NoAction,
    }
}

/// The binary value for a dialect one.
pub open spec fn spec_urgency_from_v1dot0(v: v1dot0::Urgency) -> Urgency {
    match v {
        v1dot0::Urgency::Immediate => Urgency::Immediate,
        v1dot0::Urgency::Expected => Urgency::Expected,
        v1dot0::Urgency::Future => Urgency::Future,
        v1dot0::Urgency::Past => Urgency::Past,
        v1dot0::Urgency::Unknown => Urgency::UnknownUrgency,
    }
}

/// The binary value for a dialect one.
pub fn urgency_from_v1dot0(v: v1dot0::Urgency) -> (r: Urgency)
    ensures
        r == spec_urgency_from_v1dot0(v),
{
    match v {
        v1dot0::Urgency::Immediate => Urgency::Immediate,
        v1dot0::Urgency::Expected => Urgency::Expected,
        v1dot0::Urgency::Future => Urgency::Future,
        v1dot0::Urgency::Past => Urgency::Past,
        v1dot0::Urgency::Unknown => Urgency::UnknownUrgency,
    }
}

/// The binary value for a dialect one.
pub open spec fn spec_severity_from_v1dot0(v: v1dot0::Severity) -> Severity {
    match v {
        v1dot0::Severity::Extreme => Severity::Extreme,
        v1dot0::Severity::Severe => Severity::Severe,
        v1dot0::Severity::Moderate => Severity::Moderate,
        v1dot0::Severity::Minor => Severity::Minor,
        v1dot0::Severity::Unknown => Severity::UnknownSeverity,
    }
}

/// The binary value for a dialect one.
pub fn severity_from_v1dot0(v: v1dot0::Severity) -> (r: Severity)
    ensures
        r == spec_severity_from_v1dot0(v),
{
    match v {
        v1dot0::Severity::Extreme => Severity::Extreme,
        v1dot0::Severity::Severe => Severity::Severe,
        v1dot0::Severity::Moderate => Severity::Moderate,
        v1dot0::Severity::Minor => Severity::Minor,
        v1dot0::Severity::Unknown => Severity::UnknownSeverity,
    }
}

/// The binary value for a dialect one.
pub open spec fn spec_certainty_from_v1dot0(v: v1dot0::Certainty) -> Certainty {
    match v {
        v1dot0::Certainty::VeryLikely => Certainty::VeryLikely,
        v1dot0::Certainty::Likely => Certainty::Likely,
        v1dot0::Certainty::Possible => Certainty::Possible,
        v1dot0::Certainty::Unlikely => Certainty::Unlikely,
        v1dot0::Certainty::Unknown => Certainty::UnknownCertainty,
    }
}

/// The binary value for a dialect one.
pub fn certainty_from_v1dot0(v: v1dot0::Certainty) -> (r: Certainty)
    ensures
        r == spec_certainty_from_v1dot0(v),
{
    match v {
        v1dot0::Certainty::VeryLikely => Certainty::VeryLikely,
        v1dot0::Certainty::Likely => Certainty::Likely,
        v1dot0::Certainty::Possible => Certainty::Possible,
        v1dot0::Certainty::Unlikely => Certainty::Unlikely,
        v1dot0::Certainty::Unknown => Certainty::UnknownCertainty,
    }
}

/// The binary value for a dialect one.
pub open spec fn spec_certainty_from_v1dot1(v: v1dot1::Certainty) -> Certainty {
    match v {
        v1dot1::Certainty::Observed => Certainty::Observed,
        v1dot1::Certainty::Likely => Certainty::Likely,
        v1dot1::Certainty::Possible => Certainty::Possible,
        v1dot1::Certainty::Unlikely => Certainty::Unlikely,
        v1dot1::Certainty::Unknown => Certainty::UnknownCertainty,
    }
}

/// The binary value for a dialect one.
pub fn certainty_from_v1dot1(v: v1dot1::Certainty) -> (r: Certainty)
    ensures
        r == spec_certainty_from_v1dot1(v),
{
    match v {
        v1dot1::Certainty::Observed => Certainty::Observed,
        v1dot1::Certainty::Likely => Certainty::Likely,
        v1dot1::Certainty::Possible => Certainty::Possible,
        v1dot1::Certainty::Unlikely => Certainty::Unlikely,
        v1dot1::Certainty::Unknown => Certainty::UnknownCertainty,
    }
}

/// The binary value for a dialect one.
pub open spec fn spec_status_from_v1dot0(v: v1dot0::Status) -> Status {
    match v {
        v1dot0::Status::Actual => Status::Actual,
        v1dot0::Status::Exercise => Status::Exercise,
        v1dot0::Status::System => Status::System,
        v1dot0::Status::Test => Status::Test,
    }
}

/// The binary value for a dialect one.
pub fn status_from_v1dot0(v: v1dot0::Status) -> (r: Status)
    ensures
        r == spec_status_from_v1dot0(v),
{
    match v {
        v1dot0::Status::Actual => Status::Actual,
        v1dot0::Status::Exercise => Status::Exercise,
        v1dot0::Status::System => Status::System,
        v1dot0::Status::Test => Status::Test,
    }
}

/// The binary value for a dialect one.
pub open spec fn spec_status_from_v1dot1(v: v1dot1::Status) -> Status {
    match v {
        v1dot1::Status::Actual => Status::Actual,
        v1dot1::Status::Exercise => Status::Exercise,
        v1dot1::Status::System => Status::System,
        v1dot1::Status::Test => Status::Test,
        v1dot1::Status::Draft => Status::Draft,
    }
}

/// The binary value for a dialect one.
pub fn status_from_v1dot1(v: v1dot1::Status) -> (r: Status)
    ensures
        r == spec_status_from_v1dot1(v),
{
    match v {
        v1dot1::Status::Actual => Status::Actual,
        v1dot1::Status::Exercise => Status::Exercise,
        v1dot1::Status::System => Status::System,
        v1dot1::Status::Test => Status::Test,
        v1dot1::Status::Draft => Status::Draft,
    }
}

/// The binary value for a dialect one.
pub open spec fn spec_msg_type_from_v1dot0(v: v1dot0::MessageType) -> MsgType {
    match v {
        v1dot0::MessageType::Alert => MsgType::Alert,
        v1dot0::MessageType::Update => MsgType::Update,
        v1dot0::MessageType::Cancel => MsgType::Cancel,
        v1dot0::MessageType::Ack => MsgType::Ack,
        v1dot0::MessageType::Error => MsgType::Error,
    }
}

/// The binary value for a dialect one.
pub fn msg_type_from_v1dot0(v: v1dot0::MessageType) -> (r: MsgType)
    ensures
        r == spec_msg_type_from_v1dot0(v),
{
    match v {
        v1dot0::MessageType::Alert => MsgType::Alert,
        v1dot0::MessageType::Update => MsgType::Update,
        v1dot0::MessageType::Cancel => MsgType::Cancel,
        v1dot0::MessageType::Ack => MsgType::Ack,
        v1dot0::MessageType::Error => MsgType::Error,
    }
}

/// The binary value for a dialect one.
pub open spec fn spec_scope_from_v1dot0(v: v1dot0::Scope) -> Scope {
    match v {
        v1dot0::Scope::Public => Scope::Public,
        v1dot0::Scope::Restricted => Scope::Restricted,
        v1dot0::Scope::Private => Scope::Private,
    }
}

/// The binary value for a dialect one.
pub fn scope_from_v1dot0(v: v1dot0::Scope) -> (r: Scope)
    ensures
        r == spec_scope_from_v1dot0(v),
{
    match v {
        v1dot0::Scope::Public => Scope::Public,
        v1dot0::Scope::Restricted => Scope::Restricted,
        v1dot0::Scope::Private => Scope::Private,
    }
}

} // verus!
