//! A session: the engine's connection to a data store. Opening one is a
//! short exchange with the engine (begin, then load), driven here one step at
//! a time; what the engine reports after each step decides the next.
use vstd::prelude::*;

use crate::engine::{encodable, is_encodable, EngineCall, RecordKind, SessionOpenMode, Target};

verus! {

/// The engine's code for "no error".
pub const ERR_BACKEND_NO_ERR: i32 = 0;

/// The engine's code for a data-store address it cannot use.
pub const ERR_BACKEND_BAD_URL: i32 = 3;

/// An error code of the engine's storage layer, relayed as it is.
#[derive(Clone, Copy, Debug, PartialEq, Eq, Structural, Hash)]
pub struct QofBackendError {
    pub code: i32,
}

impl QofBackendError {
    /// True for the code that means no error.
    pub fn is_ok(&self) -> (r: bool)
        ensures
            r == (self.code == ERR_BACKEND_NO_ERR),
    {
        self.code == ERR_BACKEND_NO_ERR
    }
}

/// The prefix given to a plain path to make it an address.
pub open spec fn file_scheme() -> Seq<char> {
    seq!['f', 'i', 'l', 'e', ':', '/', '/']
}

/// The text holds "://" somewhere.
pub open spec fn has_scheme(s: Seq<char>) -> bool {
    exists|i: int| 0 <= i && i + 3 <= s.len() && #[trigger] s[i] == ':' && s[i + 1] == '/' && s[i + 2] == '/'
}

/// An address as given, or a plain path with the file scheme put in front.
pub open spec fn normalized_uri(s: Seq<char>) -> Seq<char> {
    if has_scheme(s) {
        s
    } else {
        file_scheme() + s
    }
}

/// Whether the text holds "://".
pub fn contains_scheme(s: &str) -> (r: bool)
    ensures
        r == has_scheme(s@),
{
    let n = s.unicode_len();
    if n < 3 {
        return false;
    }
    let mut i: usize = 0;
    while i < n - 2
        invariant
            n == s@.len(),
            n >= 3,
            i + 2 <= n,
            forall|j: int|
                0 <= j < i ==> !(#[trigger] s@[j] == ':' && s@[j + 1] == '/' && s@[j + 2] == '/'),
        decreases n - i,
    {
        if s.get_char(i) == ':' && s.get_char(i + 1) == '/' && s.get_char(i + 2) == '/' {
            return true;
        }
        i = i + 1;
    }
    false
}

/// The address to open: the text itself when it names a scheme, else the
/// text as a file path.
pub fn normalize_uri(uri: &str) -> (r: String)
    ensures
        r@ == normalized_uri(uri@),
{
    if contains_scheme(uri) {
        String::from_str(uri)
    } else {
        let mut s = String::from_str("file://");
        proof {
            reveal_strlit("file://");
            assert(s@ =~= file_scheme());
        }
        s.append(uri);
        s
    }
}

/// A session record, by address. Releasing it always ends and destroys it.
#[derive(Debug)]
pub struct Session {
    ptr: u64,
}

impl View for Session {
    type V = u64;

    closed spec fn view(&self) -> u64 {
        self.ptr
    }
}

impl Session {
    /// The record address is never null.
    #[verifier::type_invariant]
    spec fn non_null(self) -> bool {
        self.ptr != 0
    }

    /// Wraps a session that the engine has just allocated.
    pub fn new(ptr: u64) -> (r: Session)
        requires
            ptr != 0,
        ensures
            r@ == ptr,
    {
        Session { ptr }
    }

    /// The record's address.
    pub fn as_ptr(&self) -> (r: u64)
        ensures
            r == self@,
            r != 0,
    {
        proof {
            use_type_invariant(self);
        }
        self.ptr
    }

    /// The calls that releasing a session makes: end it, then destroy it.
    pub open spec fn release_plan(ptr: u64) -> Seq<EngineCall> {
        seq![
            EngineCall::SessionEnd { session: ptr },
            EngineCall::Destroy { kind: RecordKind::Session, target: Target::Existing(ptr) },
        ]
    }

    /// The calls that releasing this session makes.
    pub fn drop_calls(&self) -> (r: Vec<EngineCall>)
        ensures
            r@ == Session::release_plan(self@),
    {
        let ptr = self.as_ptr();
        vec![
            EngineCall::SessionEnd { session: ptr },
            EngineCall::Destroy { kind: RecordKind::Session, target: Target::Existing(ptr) },
        ]
    }

    /// Starts opening a data store on this session. A path without a scheme
    /// is taken as a file. An address that holds a NUL fails at once with
    /// the bad-address code.
    pub fn open(session: Session, uri: &str, mode: SessionOpenMode) -> (r: SessionOpen)
        ensures
            r@.session == session@,
            r@.mode == mode,
            r@.uri == normalized_uri(uri@),
            encodable(uri@) ==> r@.stage == OpenStage::Beginning,
            !encodable(uri@) ==> r@.stage == OpenStage::Failed(
                QofBackendError { code: ERR_BACKEND_BAD_URL },
            ),
    {
        let full = normalize_uri(uri);
        let stage = if is_encodable(uri) {
            OpenStage::Beginning
        } else {
            OpenStage::Failed(QofBackendError { code: ERR_BACKEND_BAD_URL })
        };
        SessionOpen { session, uri: full, mode, stage }
    }

    /// Starts opening a data store read-only.
    pub fn open_readonly(session: Session, path: &str) -> (r: SessionOpen)
        ensures
            r@.session == session@,
            r@.mode == SessionOpenMode::ReadOnly,
            r@.uri == normalized_uri(path@),
            encodable(path@) ==> r@.stage == OpenStage::Beginning,
            !encodable(path@) ==> r@.stage == OpenStage::Failed(
                QofBackendError { code: ERR_BACKEND_BAD_URL },
            ),
    {
        Session::open(session, path, SessionOpenMode::ReadOnly)
    }
}

/// Where the opening of a session stands.
#[derive(Clone, Copy, Debug, PartialEq, Eq, Structural, Hash)]
pub enum OpenStage {
    /// The session is to be attached to its data store.
    Beginning,
    /// The data is to be loaded.
    Loading,
    /// The data store is open.
    Opened,
    /// The engine reported an error, or the address was unusable.
    Failed(QofBackendError),
}

/// The opening of a session, seen from contracts.
pub struct SessionOpenView {
    pub session: u64,
    pub uri: Seq<char>,
    pub mode: SessionOpenMode,
    pub stage: OpenStage,
}

/// A session being opened.
#[derive(Debug)]
pub struct SessionOpen {
    session: Session,
    uri: String,
    mode: SessionOpenMode,
    stage: OpenStage,
}

impl View for SessionOpen {
    type V = SessionOpenView;

    closed spec fn view(&self) -> SessionOpenView {
        SessionOpenView { session: self.session@, uri: self.uri@, mode: self.mode, stage: self.stage }
    }
}

/// The stage after the engine reports `err` on the current step: the next
/// step when no error, else the failure. Settled stages stay.
pub open spec fn next_stage(stage: OpenStage, err: QofBackendError) -> OpenStage {
    match stage {
        OpenStage::Beginning => if err.code == ERR_BACKEND_NO_ERR {
            OpenStage::Loading
        } else {
            OpenStage::Failed(err)
        },
        OpenStage::Loading => if err.code == ERR_BACKEND_NO_ERR {
            OpenStage::Opened
        } else {
            OpenStage::Failed(err)
        },
        _ => stage,
    }
}

impl SessionOpen {
    /// The call the engine is to make next, or nothing once settled.
    pub fn next_call(&self) -> (r: Option<EngineCall>)
        ensures
            self@.stage == OpenStage::Beginning ==> (r matches Some(
                EngineCall::SessionBegin { session, uri, mode },
            ) && session == self@.session && uri@ == self@.uri && mode == self@.mode),
            self@.stage == OpenStage::Loading ==> r == Some(
                EngineCall::SessionLoad { session: self@.session },
            ),
            self@.stage is Opened || self@.stage is Failed ==> r is None,
    {
        match self.stage {
            OpenStage::Beginning => Some(
                EngineCall::SessionBegin {
                    session: self.session.as_ptr(),
                    uri: self.uri.clone(),
                    mode: self.mode,
                },
            ),
            OpenStage::Loading => Some(EngineCall::SessionLoad { session: self.session.as_ptr() }),
            _ => None,
        }
    }

    /// Takes the error code that the engine reports after the current step.
    pub fn report(&mut self, err: QofBackendError)
        ensures
            final(self)@ == (SessionOpenView { stage: next_stage(old(self)@.stage, err), ..old(self)@ }),
    {
        let stage = match self.stage {
            OpenStage::Beginning => if err.is_ok() {
                OpenStage::Loading
            } else {
                OpenStage::Failed(err)
            },
            OpenStage::Loading => if err.is_ok() {
                OpenStage::Opened
            } else {
                OpenStage::Failed(err)
            },
            other => other,
        };
        self.stage = stage;
    }

    /// Where the opening stands.
    pub fn stage(&self) -> (r: OpenStage)
        ensures
            r == self@.stage,
    {
        self.stage
    }

    /// The outcome once settled: success, or the engine's error.
    pub fn outcome(&self) -> (r: Option<Result<(), QofBackendError>>)
        ensures
            self@.stage == OpenStage::Opened ==> r == Some(Ok::<(), QofBackendError>(())),
            self@.stage matches OpenStage::Failed(e) ==> r == Some(Err::<(), QofBackendError>(e)),
            self@.stage is Beginning || self@.stage is Loading ==> r is None,
    {
        match self.stage {
            OpenStage::Opened => Some(Ok(())),
            OpenStage::Failed(e) => Some(Err(e)),
            _ => None,
        }
    }

    /// The session, whatever the outcome; a failed one is still to be released.
    pub fn into_session(self) -> (r: Session)
        ensures
            r@ == self@.session,
    {
        self.session
    }
}

} // verus!
