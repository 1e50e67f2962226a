use vstd::prelude::*;
use vstd::string::StringExecFns;

verus! {

/// The classified failures a run can observe. Failures of outside
/// services are carried as their plain text description.
#[derive(Debug, PartialEq, Eq)]
pub enum VitaError {
    /// The named source legitimately had no data for the named host.
    SourceError(String, String),
    /// The source rejected the request: bad credential or rate limit.
    AuthError(String),
    /// The source cannot run at all: these variables are not set.
    UnsetKeys(Vec<String>),
    /// A failure reported by the HTTP client.
    ReqwestError(String),
    /// A concurrent unit of work terminated abnormally.
    JoinError(String),
    /// A failure reported while reading input.
    IoError(String),
    /// Any other failure, described in text.
    Msg(String),
    /// The command line arguments could not be parsed.
    ParseError,
    /// The bulk subdomain service could not be queried.
    CrobatError,
    /// A run finished without any results.
    EmptyResults,
}

pub type Result<T> = core::result::Result<T, VitaError>;

/// A name wrapped in double quotes.
pub open spec fn quoted(s: Seq<char>) -> Seq<char> {
    "\""@ + s + "\""@
}

/// The names of `list`, each quoted, joined by a comma and a space.
pub open spec fn joined_names(list: Seq<Seq<char>>) -> Seq<char>
    decreases list.len(),
{
    if list.len() == 0 {
        Seq::empty()
    } else if list.len() == 1 {
        quoted(list[0])
    } else {
        joined_names(list.drop_last()) + ", "@ + quoted(list.last())
    }
}

/// Writes a list of names the way a listing of strings prints: each in
/// double quotes, a comma and a space between them, brackets around.
pub fn list_names(list: &Vec<String>) -> (r: String)
    ensures
        r@ == "["@ + joined_names(list@.map_values(|s: String| s@)) + "]"@,
{
    let ghost views = list@.map_values(|s: String| s@);
    let mut acc = String::from_str("[");
    let mut i: usize = 0;
    while i < list.len()
        invariant
            views == list@.map_values(|s: String| s@),
            i <= list.len(),
            acc@ == "["@ + joined_names(views.take(i as int)),
        decreases list.len() - i,
    {
        if i > 0 {
            acc.append(", ");
        }
        acc.append("\"");
        acc.append(list[i].as_str());
        acc.append("\"");
        proof {
            assert(views.take(i + 1).drop_last() =~= views.take(i as int));
            assert(views.take(i + 1).last() == views[i as int]);
        }
        i += 1;
    }
    acc.append("]");
    proof {
        assert(views.take(list@.len() as int) =~= views);
    }
    acc
}

impl VitaError {
    /// The text that describes this error.
    pub open spec fn message_view(&self) -> Seq<char> {
        match self {
            VitaError::SourceError(s, h) => s@ + " couldn't find any results for: "@ + h@,
            VitaError::AuthError(s) => "error authenticating to "@ + s@
                + " or may have hit rate limits"@,
            VitaError::UnsetKeys(v) => "error reading environment variables "@ + "["@
                + joined_names(v@.map_values(|s: String| s@)) + "]"@,
            VitaError::ReqwestError(s) => s@,
            VitaError::JoinError(s) => s@,
            VitaError::IoError(s) => s@,
            VitaError::Msg(s) => "got error "@ + s@,
            VitaError::ParseError => "got error trying to parse cli args"@,
            VitaError::CrobatError => "got error when trying to pull results from crobat"@,
            VitaError::EmptyResults => "returned no results"@,
        }
    }

    /// Renders the error as text.
    pub fn message(&self) -> (r: String)
        ensures
            r@ == self.message_view(),
    {
        match self {
            VitaError::SourceError(s, h) => String::from_str(s.as_str()).concat(
                " couldn't find any results for: ",
            ).concat(h.as_str()),
            VitaError::AuthError(s) => String::from_str("error authenticating to ").concat(
                s.as_str(),
            ).concat(" or may have hit rate limits"),
            VitaError::UnsetKeys(v) => String::from_str(
                "error reading environment variables ",
            ).concat(list_names(v).as_str()),
            VitaError::ReqwestError(s) => s.clone(),
            VitaError::JoinError(s) => s.clone(),
            VitaError::IoError(s) => s.clone(),
            VitaError::Msg(s) => String::from_str("got error ").concat(s.as_str()),
            VitaError::ParseError => String::from_str("got error trying to parse cli args"),
            VitaError::CrobatError => String::from_str(
                "got error when trying to pull results from crobat",
            ),
            VitaError::EmptyResults => String::from_str("returned no results"),
        }
    }
}

impl From<String> for VitaError {
    fn from(err: String) -> (r: Self) {
        VitaError::Msg(err)
    }
}

impl vstd::std_specs::convert::FromSpecImpl<String> for VitaError {
    open spec fn obeys_from_spec() -> bool {
        true
    }

    open spec fn from_spec(err: String) -> Self {
        VitaError::Msg(err)
    }
}

} // verus!
