use vstd::prelude::*;

verus! {

/// Lifecycle stage of a badge awarded to a user.
#[derive(Debug, Clone, Copy, PartialEq, Eq, Structural)]
pub enum Status {
    Claimed,
    Unclaimed,
    Pending,
    Minting,
}

/// The lowercase token that stands for a status in a query string.
pub open spec fn status_token(s: Status) -> Seq<char> {
    match s {
        Status::Claimed => "claimed"@,
        Status::Unclaimed => "unclaimed"@,
        Status::Pending => "pending"@,
        Status::Minting => "minting"@,
    }
}

/// The status a query uses: the one given, or `Claimed` when none is.
pub open spec fn effective_status(s: Option<Status>) -> Status {
    match s {
        Some(st) => st,
        None => Status::Claimed,
    }
}

impl Status {
    /// The query-string token of this status.
    pub fn to_string(&self) -> (r: String)
        ensures
            r@ == status_token(*self),
    {
        match self {
            Status::Claimed => String::from_str("claimed"),
            Status::Unclaimed => String::from_str("unclaimed"),
            Status::Pending => String::from_str("pending"),
            Status::Minting => String::from_str("minting"),
        }
    }

    /// Resolves an optional status, defaulting to `Claimed`.
    pub fn or_default(status: Option<Status>) -> (r: Status)
        ensures
            r == effective_status(status),
    {
        match status {
            Some(s) => s,
            None => Status::Claimed,
        }
    }
}

} // verus!
