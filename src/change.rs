//! Visibility changes: parsing of `name:visibility` tokens, the request for
//! each change, and the per-item results of a batch, where one item's failure
//! never affects another's.
use vstd::prelude::*;
use crate::paginate::TransportError;
use crate::text::{chars_of, push_char, push_text, same_text};
use vstd::string::StringExecFns;

verus! {

/// The visibility a change asks for.
#[derive(Debug, Clone, Copy, PartialEq, Eq, Structural)]
pub enum DesiredVisibility {
    Public,
    Private,
}

/// How a change token is written for a visibility.
pub open spec fn desired_name(d: DesiredVisibility) -> Seq<char> {
    match d {
        DesiredVisibility::Public => "public"@,
        DesiredVisibility::Private => "private"@,
    }
}

/// Why a change token was rejected.
#[derive(Debug, Clone, PartialEq, Eq)]
pub enum ValidationError {
    /// The token has no `:` between name and visibility.
    MissingSeparator,
    /// The repository name before the `:` is empty.
    EmptyName,
    /// The visibility after the `:` is neither `public` nor `private`.
    UnknownVisibility(String),
}

/// A request to set the visibility of one repository.
#[derive(Debug, Clone)]
pub struct VisibilityChangeRequest {
    pub repository_name: String,
    pub desired_visibility: DesiredVisibility,
}

/// The position of the first `:` in `s`, or its length when it has none.
pub open spec fn colon_index(s: Seq<char>) -> nat
    decreases s.len(),
{
    if s.len() == 0 {
        0
    } else if s[0] == ':' {
        0
    } else {
        1 + colon_index(s.drop_first())
    }
}

/// The first field of `s`: what comes before its first `:`.
pub open spec fn first_field(s: Seq<char>) -> Seq<char> {
    s.subrange(0, colon_index(s) as int)
}

/// The second field of `s`: what comes after its first `:`, up to the next.
pub open spec fn second_field(s: Seq<char>) -> Seq<char> {
    first_field(s.subrange(colon_index(s) as int + 1, s.len() as int))
}

/// The verdict on a token, over its characters.
pub ghost enum TokenVerdict {
    Valid(Seq<char>, DesiredVisibility),
    MissingSeparator,
    EmptyName,
    UnknownVisibility(Seq<char>),
}

/// How a token parses: it needs a `:`, a non-empty name before it, and
/// `public` or `private` after it; what follows a second `:` is ignored.
pub open spec fn token_verdict(s: Seq<char>) -> TokenVerdict {
    if colon_index(s) >= s.len() {
        TokenVerdict::MissingSeparator
    } else if colon_index(s) == 0 {
        TokenVerdict::EmptyName
    } else if second_field(s) == desired_name(DesiredVisibility::Public) {
        TokenVerdict::Valid(first_field(s), DesiredVisibility::Public)
    } else if second_field(s) == desired_name(DesiredVisibility::Private) {
        TokenVerdict::Valid(first_field(s), DesiredVisibility::Private)
    } else {
        TokenVerdict::UnknownVisibility(second_field(s))
    }
}

/// A parse result that agrees with the verdict on token `s`.
pub open spec fn request_matches(
    r: Result<VisibilityChangeRequest, ValidationError>,
    s: Seq<char>,
) -> bool {
    match (r, token_verdict(s)) {
        (Ok(q), TokenVerdict::Valid(name, d)) => q.repository_name@ == name && q.desired_visibility == d,
        (Err(ValidationError::MissingSeparator), TokenVerdict::MissingSeparator) => true,
        (Err(ValidationError::EmptyName), TokenVerdict::EmptyName) => true,
        (Err(ValidationError::UnknownVisibility(v)), TokenVerdict::UnknownVisibility(w)) => v@ == w,
        _ => false,
    }
}

proof fn lemma_colon_index(s: Seq<char>, i: int)
    requires
        0 <= i <= s.len(),
        forall|j: int| 0 <= j < i ==> s[j] != ':',
        i == s.len() || s[i] == ':',
    ensures
        colon_index(s) == i,
    decreases i,
{
    if i > 0 {
        lemma_colon_index(s.drop_first(), i - 1);
    }
}

/// The position of the first `:` at or after `from` in `cs`, or its length.
fn find_colon(cs: &Vec<char>, from: usize) -> (r: usize)
    requires
        from <= cs@.len(),
    ensures
        r == from + colon_index(cs@.subrange(from as int, cs@.len() as int)),
        r <= cs@.len(),
{
    let mut i: usize = from;
    while i < cs.len() && cs[i] != ':'
        invariant
            from <= i <= cs@.len(),
            forall|j: int| from <= j < i ==> cs@[j] != ':',
        decreases cs@.len() - i,
    {
        i = i + 1;
    }
    proof {
        let t = cs@.subrange(from as int, cs@.len() as int);
        lemma_colon_index(t, i - from);
    }
    i
}

/// The characters `cs[from..to]` as a string.
fn string_of(cs: &Vec<char>, from: usize, to: usize) -> (r: String)
    requires
        from <= to <= cs@.len(),
    ensures
        r@ == cs@.subrange(from as int, to as int),
{
    let mut s = String::new();
    let mut i: usize = from;
    while i < to
        invariant
            from <= i <= to,
            to <= cs@.len(),
            s@ == cs@.subrange(from as int, i as int),
        decreases to - i,
    {
        push_char(&mut s, cs[i]);
        i = i + 1;
        assert(s@ =~= cs@.subrange(from as int, i as int));
    }
    s
}

/// A token with no `:` at all is rejected for its missing separator, and
/// never taken for a request.
pub proof fn law_token_without_separator(s: Seq<char>)
    requires
        forall|i: int| 0 <= i < s.len() ==> s[i] != ':',
    ensures
        token_verdict(s) == TokenVerdict::MissingSeparator,
        forall|r: Result<VisibilityChangeRequest, ValidationError>|
            request_matches(r, s) ==> r == Err::<VisibilityChangeRequest, ValidationError>(
                ValidationError::MissingSeparator,
            ),
{
    lemma_colon_index(s, s.len() as int);
}

impl VisibilityChangeRequest {
    /// Parses a `name:visibility` token.
    pub fn parse(token: &str) -> (r: Result<VisibilityChangeRequest, ValidationError>)
        ensures
            request_matches(r, token@),
    {
        let cs = chars_of(token);
        let n = cs.len();
        let c = find_colon(&cs, 0);
        proof {
            assert(cs@.subrange(0, n as int) =~= cs@);
        }
        if c >= n {
            return Err(ValidationError::MissingSeparator);
        }
        if c == 0 {
            return Err(ValidationError::EmptyName);
        }
        let d = find_colon(&cs, c + 1);
        let name = string_of(&cs, 0, c);
        let vis = string_of(&cs, c + 1, d);
        proof {
            let rest = token@.subrange(c + 1, n as int);
            assert(rest.subrange(0, colon_index(rest) as int) =~= cs@.subrange(c + 1, d as int));
        }
        if same_text(vis.as_str(), "public") {
            Ok(VisibilityChangeRequest { repository_name: name, desired_visibility: DesiredVisibility::Public })
        } else if same_text(vis.as_str(), "private") {
            Ok(VisibilityChangeRequest { repository_name: name, desired_visibility: DesiredVisibility::Private })
        } else {
            Err(ValidationError::UnknownVisibility(vis))
        }
    }
}

/// Parses every token of a batch, each on its own: a malformed token is
/// rejected alone and never stops the others.
pub fn plan_changes(tokens: &Vec<String>) -> (r: Vec<Result<VisibilityChangeRequest, ValidationError>>)
    ensures
        r@.len() == tokens@.len(),
        forall|i: int| 0 <= i < tokens@.len() ==> request_matches(#[trigger] r@[i], tokens@[i]@),
{
    let mut out: Vec<Result<VisibilityChangeRequest, ValidationError>> = Vec::new();
    let mut i: usize = 0;
    while i < tokens.len()
        invariant
            i <= tokens@.len(),
            out@.len() == i,
            forall|j: int| 0 <= j < i ==> request_matches(#[trigger] out@[j], tokens@[j]@),
        decreases tokens@.len() - i,
    {
        out.push(VisibilityChangeRequest::parse(tokens[i].as_str()));
        i = i + 1;
    }
    out
}

/// The path of the request that changes a repository of `login`.
pub open spec fn change_path_of(login: Seq<char>, name: Seq<char>) -> Seq<char> {
    "/repos/"@ + login + "/"@ + name
}

/// The JSON body of the request that sets a visibility.
pub open spec fn change_body_of(d: DesiredVisibility) -> Seq<char> {
    "{\"visibility\":\""@ + desired_name(d) + "\"}"@
}

impl VisibilityChangeRequest {
    /// The path, under the service's root, of the request for this change.
    pub fn path(&self, login: &str) -> (r: String)
        ensures
            r@ == change_path_of(login@, self.repository_name@),
    {
        let mut p = String::new();
        push_text(&mut p, "/repos/");
        push_text(&mut p, login);
        push_text(&mut p, "/");
        push_text(&mut p, self.repository_name.as_str());
        assert(p@ =~= change_path_of(login@, self.repository_name@));
        p
    }

    /// The JSON body of the request for this change.
    pub fn body(&self) -> (r: String)
        ensures
            r@ == change_body_of(self.desired_visibility),
    {
        let mut b = String::new();
        push_text(&mut b, "{\"visibility\":\"");
        match self.desired_visibility {
            DesiredVisibility::Public => push_text(&mut b, "public"),
            DesiredVisibility::Private => push_text(&mut b, "private"),
        }
        push_text(&mut b, "\"}");
        assert(b@ =~= change_body_of(self.desired_visibility));
        b
    }
}

/// The answer of the service to a change: the repository and whether it is
/// now private.
#[derive(Debug, Clone)]
pub struct PatchResponse {
    pub name: String,
    pub private: bool,
}

/// Why one change of a batch failed.
#[derive(Debug, Clone, PartialEq, Eq)]
pub enum ChangeError {
    /// The token was malformed; no request was made.
    Validation(ValidationError),
    /// The request failed, or its answer could not be read.
    Transport(TransportError),
    /// The token was valid but no answer was handed back for it.
    NotSent,
}

/// The result of one change of a batch.
#[derive(Debug, Clone)]
pub struct VisibilityChangeResult {
    pub repository_name: String,
    /// The name the service reported back, on success.
    pub reported_name: Option<String>,
    pub succeeded: bool,
    pub now_private: Option<bool>,
    pub error: Option<ChangeError>,
}

/// The result that token `s` and the answer to its request give, on their
/// own: a rejected token fails with its validation error and its text as
/// the name; a valid one succeeds exactly when its answer was read, with the
/// name and visibility that the answer reports.
pub open spec fn result_matches(
    r: VisibilityChangeResult,
    s: Seq<char>,
    answer: Option<Result<PatchResponse, TransportError>>,
) -> bool {
    match token_verdict(s) {
        TokenVerdict::Valid(name, _) => {
            &&& r.repository_name@ == name
            &&& match answer {
                Some(Ok(p)) => {
                    &&& r.succeeded
                    &&& r.now_private == Some(p.private)
                    &&& r.reported_name == Some(p.name)
                    &&& r.error is None
                },
                Some(Err(e)) => !r.succeeded && r.now_private is None && r.reported_name is None
                    && r.error == Some(ChangeError::Transport(e)),
                None => !r.succeeded && r.now_private is None && r.reported_name is None
                    && r.error == Some(ChangeError::NotSent),
            }
        },
        _ => {
            &&& r.repository_name@ == s
            &&& !r.succeeded
            &&& r.now_private is None
            &&& r.reported_name is None
            &&& r.error matches Some(ChangeError::Validation(v)) && request_matches(Err(v), s)
        },
    }
}

/// The result of one change, from its token and the answer to its request.
pub fn settle(token: &str, answer: Option<Result<PatchResponse, TransportError>>) -> (r: VisibilityChangeResult)
    ensures
        result_matches(r, token@, answer),
{
    match VisibilityChangeRequest::parse(token) {
        Err(v) => VisibilityChangeResult {
            repository_name: String::from_str(token),
            reported_name: None,
            succeeded: false,
            now_private: None,
            error: Some(ChangeError::Validation(v)),
        },
        Ok(q) => match answer {
            Some(Ok(p)) => VisibilityChangeResult {
                repository_name: q.repository_name,
                reported_name: Some(p.name),
                succeeded: true,
                now_private: Some(p.private),
                error: None,
            },
            Some(Err(e)) => VisibilityChangeResult {
                repository_name: q.repository_name,
                reported_name: None,
                succeeded: false,
                now_private: None,
                error: Some(ChangeError::Transport(e)),
            },
            None => VisibilityChangeResult {
                repository_name: q.repository_name,
                reported_name: None,
                succeeded: false,
                now_private: None,
                error: Some(ChangeError::NotSent),
            },
        },
    }
}

/// The results of a batch, one per token in order, each from its own token
/// and answer alone: a failed item never stops or changes the others.
pub fn settle_batch(tokens: &Vec<String>, answers: Vec<Option<Result<PatchResponse, TransportError>>>) -> (r: Vec<VisibilityChangeResult>)
    requires
        answers@.len() == tokens@.len(),
    ensures
        r@.len() == tokens@.len(),
        forall|i: int| 0 <= i < tokens@.len() ==> result_matches(#[trigger] r@[i], tokens@[i]@, answers@[i]),
{
    let mut out: Vec<VisibilityChangeResult> = Vec::new();
    let mut answers = answers;
    let ghost all = answers@;
    let mut rest: Vec<Option<Result<PatchResponse, TransportError>>> = Vec::new();
    // Take the answers from the back so that each moves out once.
    while answers.len() > 0
        invariant
            all.len() == tokens@.len(),
            all =~= answers@ + rest@.reverse(),
        decreases answers@.len(),
    {
        let a = answers.pop().unwrap();
        rest.push(a);
        proof {
            assert(all =~= answers@ + rest@.reverse());
        }
    }
    let mut i: usize = 0;
    while i < tokens.len()
        invariant
            i <= tokens@.len(),
            all.len() == tokens@.len(),
            rest@.len() + i == tokens@.len(),
            forall|j: int| i <= j < tokens@.len() ==> rest@[tokens@.len() - 1 - j] == all[j],
            out@.len() == i,
            forall|j: int| 0 <= j < i ==> result_matches(#[trigger] out@[j], tokens@[j]@, all[j]),
        decreases tokens@.len() - i,
    {
        let a = rest.pop().unwrap();
        out.push(settle(tokens[i].as_str(), a));
        i = i + 1;
    }
    out
}

} // verus!
