use vstd::prelude::*;

verus! {

/// Why a session identifier was rejected.
#[derive(Debug, Clone, Copy, PartialEq, Eq, Structural)]
pub enum SessionIdParseError {
    /// The identifier was the empty string.
    NonEmptyString,
}

impl SessionIdParseError {
    /// The human-readable description of the error.
    pub fn to_string(&self) -> (r: String)
        ensures
            r@ == "Session Id must be a non-empty string"@,
    {
        "Session Id must be a non-empty string".to_owned()
    }
}

/// What parsing `s` yields, stated over the identifier's characters.
pub open spec fn parsed(s: Seq<char>) -> Result<Seq<char>, SessionIdParseError> {
    if s.len() == 0 {
        Err(SessionIdParseError::NonEmptyString)
    } else {
        Ok(s)
    }
}

/// The identifier of a login session: any non-empty string, kept verbatim.
#[derive(Debug)]
pub struct SessionId {
    session_id: String,
}

impl View for SessionId {
    type V = Seq<char>;

    closed spec fn view(&self) -> Seq<char> {
        self.session_id@
    }
}

impl SessionId {
    #[verifier::type_invariant]
    spec fn non_empty(&self) -> bool {
        self.session_id@.len() > 0
    }

    /// Accepts any non-empty string as it stands; rejects the empty one.
    pub fn parse(s: &str) -> (r: Result<SessionId, SessionIdParseError>)
        ensures
            match r {
                Ok(id) => parsed(s@) == Ok::<Seq<char>, SessionIdParseError>(id@),
                Err(e) => parsed(s@) == Err::<Seq<char>, SessionIdParseError>(e),
            },
    {
        if s.is_empty() {
            Err(SessionIdParseError::NonEmptyString)
        } else {
            Ok(SessionId { session_id: s.to_owned() })
        }
    }

    /// Whether `text` parses to this same identifier.
    pub fn is_named_by(&self, text: &str) -> (r: bool)
        ensures
            r == (text@ == self@),
    {
        proof {
            use_type_invariant(self);
        }
        match SessionId::parse(text) {
            Ok(candidate) => candidate.eq(self),
            Err(_) => false,
        }
    }

    /// The identifier as text.
    pub fn as_str(&self) -> (r: &str)
        ensures
            r@ == self@,
    {
        self.session_id.as_str()
    }

    /// The identifier as an owned string, exactly as it was parsed.
    pub fn to_string(&self) -> (r: String)
        ensures
            r@ == self@,
    {
        self.session_id.clone()
    }
}

impl std::str::FromStr for SessionId {
    type Err = SessionIdParseError;

    fn from_str(s: &str) -> (r: Result<SessionId, SessionIdParseError>)
        ensures
            match r {
                Ok(id) => parsed(s@) == Ok::<Seq<char>, SessionIdParseError>(id@),
                Err(e) => parsed(s@) == Err::<Seq<char>, SessionIdParseError>(e),
            },
    {
        SessionId::parse(s)
    }
}

impl PartialEq for SessionId {
    fn eq(&self, other: &SessionId) -> (r: bool) {
        self.session_id == other.session_id
    }
}

impl Eq for SessionId {}

impl vstd::std_specs::cmp::PartialEqSpecImpl for SessionId {
    open spec fn obeys_eq_spec() -> bool {
        true
    }

    open spec fn eq_spec(&self, other: &SessionId) -> bool {
        self@ == other@
    }
}

/// `parsed` accepts every non-empty string and yields that same string as
/// the identifier's characters; it rejects the empty string with
/// `NonEmptyString`.
pub proof fn lemma_parse_display_round_trip(s: Seq<char>)
    ensures
        s.len() > 0 ==> parsed(s) == Ok::<Seq<char>, SessionIdParseError>(s),
        s.len() == 0 ==> parsed(s) == Err::<Seq<char>, SessionIdParseError>(
            SessionIdParseError::NonEmptyString,
        ),
{
}

} // verus!
