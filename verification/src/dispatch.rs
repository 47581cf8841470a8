use vstd::prelude::*;

verus! {

/// The runtime types that the driver tells apart on a host object, listed
/// from the most specific to the most general: first the wrappers that the
/// driver itself defines and the document container, then the host's own
/// scalars and sequences.
#[derive(Clone, Copy, Debug, PartialEq, Eq, Structural)]
pub enum RuntimeType {
    Symbol,
    Regex,
    Binary,
    ObjectId,
    Timestamp,
    Decimal128,
    JavaScriptCode,
    JavaScriptCodeWithScope,
    Undefined,
    MaxKey,
    MinKey,
    Document,
    Float,
    Text,
    List,
    Bool,
    DateTime,
    Nothing,
    Int,
}

/// The place of a runtime type in the order of the checks: a smaller rank is
/// checked earlier.
pub open spec fn rank(t: RuntimeType) -> nat {
    match t {
        RuntimeType::Symbol => 0,
        RuntimeType::Regex => 1,
        RuntimeType::Binary => 2,
        RuntimeType::ObjectId => 3,
        RuntimeType::Timestamp => 4,
        RuntimeType::Decimal128 => 5,
        RuntimeType::JavaScriptCode => 6,
        RuntimeType::JavaScriptCodeWithScope => 7,
        RuntimeType::Undefined => 8,
        RuntimeType::MaxKey => 9,
        RuntimeType::MinKey => 10,
        RuntimeType::Document => 11,
        RuntimeType::Float => 12,
        RuntimeType::Text => 13,
        RuntimeType::List => 14,
        RuntimeType::Bool => 15,
        RuntimeType::DateTime => 16,
        RuntimeType::Nothing => 17,
        RuntimeType::Int => 18,
    }
}

/// Whether a runtime type is one of the driver's own wrappers, the document
/// container among them, and not a scalar or a sequence of the host.
pub open spec fn is_wrapper(t: RuntimeType) -> bool {
    match t {
        RuntimeType::Float
        | RuntimeType::Text
        | RuntimeType::List
        | RuntimeType::Bool
        | RuntimeType::DateTime
        | RuntimeType::Nothing
        | RuntimeType::Int => false,
        _ => true,
    }
}

/// What the instance checks say of one host object: for each runtime type,
/// whether the object is an instance of it. An object may be an instance of
/// several, as a boolean of the host is also an integer.
#[derive(Clone, Copy, Debug, PartialEq, Eq)]
pub struct TypeProfile {
    pub symbol: bool,
    pub regex: bool,
    pub binary: bool,
    pub object_id: bool,
    pub timestamp: bool,
    pub decimal128: bool,
    pub javascript_code: bool,
    pub javascript_code_with_scope: bool,
    pub undefined: bool,
    pub max_key: bool,
    pub min_key: bool,
    pub document: bool,
    pub float: bool,
    pub text: bool,
    pub list: bool,
    pub boolean: bool,
    pub date_time: bool,
    pub nothing: bool,
    pub integer: bool,
}

impl TypeProfile {
    /// Whether the object is an instance of a runtime type.
    pub open spec fn passes(&self, t: RuntimeType) -> bool {
        match t {
            RuntimeType::Symbol => self.symbol,
            RuntimeType::Regex => self.regex,
            RuntimeType::Binary => self.binary,
            RuntimeType::ObjectId => self.object_id,
            RuntimeType::Timestamp => self.timestamp,
            RuntimeType::Decimal128 => self.decimal128,
            RuntimeType::JavaScriptCode => self.javascript_code,
            RuntimeType::JavaScriptCodeWithScope => self.javascript_code_with_scope,
            RuntimeType::Undefined => self.undefined,
            RuntimeType::MaxKey => self.max_key,
            RuntimeType::MinKey => self.min_key,
            RuntimeType::Document => self.document,
            RuntimeType::Float => self.float,
            RuntimeType::Text => self.text,
            RuntimeType::List => self.list,
            RuntimeType::Bool => self.boolean,
            RuntimeType::DateTime => self.date_time,
            RuntimeType::Nothing => self.nothing,
            RuntimeType::Int => self.integer,
        }
    }

    /// A profile of an object that is an instance of nothing the driver knows.
    pub fn unknown() -> (profile: TypeProfile)
        ensures
            forall|t: RuntimeType| !profile.passes(t),
    {
        TypeProfile {
            symbol: false,
            regex: false,
            binary: false,
            object_id: false,
            timestamp: false,
            decimal128: false,
            javascript_code: false,
            javascript_code_with_scope: false,
            undefined: false,
            max_key: false,
            min_key: false,
            document: false,
            float: false,
            text: false,
            list: false,
            boolean: false,
            date_time: false,
            nothing: false,
            integer: false,
        }
    }

    /// Picks the runtime type as which the object is read: among the types
    /// that it is an instance of, the most specific one. Where it is an
    /// instance of none, nothing is picked, and reading the object fails.
    pub fn classify(&self) -> (picked: Option<RuntimeType>)
        ensures
            match picked {
                Some(t) => self.passes(t) && forall|u: RuntimeType|
                    self.passes(u) ==> rank(t) <= rank(u),
                None => forall|u: RuntimeType| !self.passes(u),
            },
    {
        if self.symbol {
            Some(RuntimeType::Symbol)
        } else if self.regex {
            Some(RuntimeType::Regex)
        } else if self.binary {
            Some(RuntimeType::Binary)
        } else if self.object_id {
            Some(RuntimeType::ObjectId)
        } else if self.timestamp {
            Some(RuntimeType::Timestamp)
        } else if self.decimal128 {
            Some(RuntimeType::Decimal128)
        } else if self.javascript_code {
            Some(RuntimeType::JavaScriptCode)
        } else if self.javascript_code_with_scope {
            Some(RuntimeType::JavaScriptCodeWithScope)
        } else if self.undefined {
            Some(RuntimeType::Undefined)
        } else if self.max_key {
            Some(RuntimeType::MaxKey)
        } else if self.min_key {
            Some(RuntimeType::MinKey)
        } else if self.document {
            Some(RuntimeType::Document)
        } else if self.float {
            Some(RuntimeType::Float)
        } else if self.text {
            Some(RuntimeType::Text)
        } else if self.list {
            Some(RuntimeType::List)
        } else if self.boolean {
            Some(RuntimeType::Bool)
        } else if self.date_time {
            Some(RuntimeType::DateTime)
        } else if self.nothing {
            Some(RuntimeType::Nothing)
        } else if self.integer {
            Some(RuntimeType::Int)
        } else {
            None
        }
    }
}

/// Every wrapper is checked before every scalar or sequence of the host, so
/// that no general check can take an object that a wrapper check would take.
pub proof fn lemma_wrappers_first(wrapper: RuntimeType, general: RuntimeType)
    requires
        is_wrapper(wrapper),
        !is_wrapper(general),
    ensures
        rank(wrapper) < rank(general),
{
}

/// The order of the checks is total: two runtime types of one rank are one.
pub proof fn lemma_rank_injective(t: RuntimeType, u: RuntimeType)
    requires
        rank(t) == rank(u),
    ensures
        t == u,
{
}

/// The boolean check comes before the integer check: a boolean of the host,
/// which is an integer too, is read as a boolean.
pub proof fn lemma_bool_before_int()
    ensures
        rank(RuntimeType::Bool) < rank(RuntimeType::Int),
{
}

} // verus!
