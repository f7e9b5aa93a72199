//! Peer-to-peer file transfer over a data channel: the control messages,
//! safe names for received files, and the receiving side's decisions.
use vstd::prelude::*;
use crate::text::{decimal, decimal_text};
use crate::textops::{push_char, text_eq};

verus! {

/// The largest file that is sent or accepted, in bytes (512 MiB).
pub const MAX_FILE_SIZE: u64 = 536870912;

/// What a sender announces of a file.
#[derive(Debug, Clone, PartialEq, Eq)]
pub struct FileMetadata {
    pub name: String,
    pub size: u64,
    /// SHA-256 of the whole file, in lower-case hex.
    pub sha256: String,
}

/// The messages exchanged on the transfer channel.
#[derive(Debug, Clone, PartialEq, Eq)]
pub enum TransferMessage {
    Metadata { id: String, name: String, size: u64, sha256: String, mime: Option<String> },
    Accept { id: String },
    Reject { id: String, reason: Option<String> },
    Cancel { id: String, reason: Option<String> },
    Chunk { data: Vec<u8> },
    Eof { id: String },
}

/// Sends and receives files over a data channel; the channel work itself
/// is done by the application around this library.
pub struct FileTransferService;

// ---------------------------------------------------------------------
// Safe file names
// ---------------------------------------------------------------------

/// What Path::file_name gives for a path: its last component, if any.
pub uninterp spec fn file_name_of(path: Seq<char>) -> Option<Seq<char>>;

/// Relies on std's Path::new and Path::file_name (a path made from text
/// has a text file name).
#[verifier::external_body]
fn path_file_name(raw: &str) -> (r: Option<String>)
    ensures
        match r {
            Some(n) => file_name_of(raw@) == Some(n@),
            None => file_name_of(raw@) is None,
        },
{
    let name = std::path::Path::new(raw).file_name()?;
    Some(name.to_str()?.to_string())
}

pub open spec fn is_ascii_alphanumeric(c: char) -> bool {
    ('0' <= c && c <= '9') || ('a' <= c && c <= 'z') || ('A' <= c && c <= 'Z')
}

/// Letters, digits, '.', '_', '-' and ' ' are kept; anything else becomes '_'.
pub open spec fn safe_char(c: char) -> char {
    if is_ascii_alphanumeric(c) || c == '.' || c == '_' || c == '-' || c == ' ' {
        c
    } else {
        '_'
    }
}

pub open spec fn strip_leading_spaces(s: Seq<char>) -> Seq<char>
    decreases s.len(),
{
    if s.len() > 0 && s[0] == ' ' {
        strip_leading_spaces(s.drop_first())
    } else {
        s
    }
}

pub open spec fn strip_trailing_spaces(s: Seq<char>) -> Seq<char>
    decreases s.len(),
{
    if s.len() > 0 && s.last() == ' ' {
        strip_trailing_spaces(s.drop_last())
    } else {
        s
    }
}

/// The safe form of a received file's name: its last path component with
/// every unsafe character replaced and spaces trimmed, or "file" where
/// nothing is left or what is left is "." or "..".
pub open spec fn sanitized_name(raw: Seq<char>) -> Seq<char> {
    let base = match file_name_of(raw) {
        Some(n) => n,
        None => "file"@,
    };
    let t = strip_trailing_spaces(strip_leading_spaces(base.map_values(|c: char| safe_char(c))));
    if t.len() == 0 || t == "."@ || t == ".."@ {
        "file"@
    } else {
        t
    }
}

proof fn lemma_strip_leading(s: Seq<char>, lo: int)
    requires
        0 <= lo <= s.len(),
        forall|j: int| 0 <= j < lo ==> s[j] == ' ',
        lo == s.len() || s[lo] != ' ',
    ensures
        strip_leading_spaces(s) == s.subrange(lo, s.len() as int),
    decreases lo,
{
    if lo == 0 {
        assert(s.subrange(0, s.len() as int) =~= s);
    } else {
        lemma_strip_leading(s.drop_first(), lo - 1);
        assert(s.drop_first().subrange(lo - 1, s.len() - 1) =~= s.subrange(lo, s.len() as int));
    }
}

proof fn lemma_strip_trailing(s: Seq<char>, hi: int)
    requires
        0 <= hi <= s.len(),
        forall|j: int| hi <= j < s.len() ==> s[j] == ' ',
        hi == 0 || s[hi - 1] != ' ',
    ensures
        strip_trailing_spaces(s) == s.subrange(0, hi),
    decreases s.len() - hi,
{
    if hi == s.len() {
        assert(s.subrange(0, hi) =~= s);
    } else {
        lemma_strip_trailing(s.drop_last(), hi);
        assert(s.drop_last().subrange(0, hi) =~= s.subrange(0, hi));
    }
}

/// Strips leading and trailing spaces.
fn trim_spaces(s: &str) -> (r: String)
    ensures
        r@ == strip_trailing_spaces(strip_leading_spaces(s@)),
{
    let n = s.unicode_len();
    let mut lo: usize = 0;
    while lo < n && s.get_char(lo) == ' '
        invariant
            n == s@.len(),
            lo <= n,
            forall|j: int| 0 <= j < lo ==> s@[j] == ' ',
        decreases n - lo,
    {
        lo = lo + 1;
    }
    proof {
        lemma_strip_leading(s@, lo as int);
    }
    let ghost mid = s@.subrange(lo as int, n as int);
    let mut hi: usize = n;
    while hi > lo && s.get_char(hi - 1) == ' '
        invariant
            n == s@.len(),
            lo <= hi <= n,
            forall|j: int| hi <= j < n ==> s@[j] == ' ',
        decreases hi,
    {
        hi = hi - 1;
    }
    proof {
        assert forall|j: int| hi - lo <= j < mid.len() implies mid[j] == ' ' by {
            assert(mid[j] == s@[j + lo]);
        }
        if hi > lo {
            assert(mid[hi - lo - 1] == s@[hi - 1]);
        }
        lemma_strip_trailing(mid, hi - lo);
        assert(mid.subrange(0, hi - lo) =~= s@.subrange(lo as int, hi as int));
    }
    s.substring_char(lo, hi).to_string()
}

/// The safe name under which a received file is stored.
pub fn sanitize_file_name(raw: &str) -> (r: String)
    ensures
        r@ == sanitized_name(raw@),
{
    proof {
        reveal_strlit("file");
    }
    let base = match path_file_name(raw) {
        Some(n) => n,
        None => String::from_str("file"),
    };
    let ghost mapped = base@.map_values(|c: char| safe_char(c));
    let n = base.as_str().unicode_len();
    let mut safe = String::new();
    let mut i: usize = 0;
    while i < n
        invariant
            n == base@.len(),
            mapped.len() == n,
            mapped == base@.map_values(|c: char| safe_char(c)),
            i <= n,
            safe@ == mapped.subrange(0, i as int),
        decreases n - i,
    {
        let c = base.as_str().get_char(i);
        let d = if ('0' <= c && c <= '9') || ('a' <= c && c <= 'z') || ('A' <= c && c <= 'Z') || c == '.' || c
            == '_' || c == '-' || c == ' ' {
            c
        } else {
            '_'
        };
        assert(mapped[i as int] == d);
        push_char(&mut safe, d);
        i = i + 1;
        assert(safe@ =~= mapped.subrange(0, i as int));
    }
    assert(mapped.subrange(0, n as int) =~= mapped);
    let trimmed = trim_spaces(safe.as_str());
    let t = trimmed.as_str();
    if t.unicode_len() == 0 || text_eq(t, ".") || text_eq(t, "..") {
        String::from_str("file")
    } else {
        trimmed
    }
}

/// The index of the last `c` in `s`, or -1.
pub open spec fn last_index_of(s: Seq<char>, c: char) -> int
    decreases s.len(),
{
    if s.len() == 0 {
        -1
    } else if s.last() == c {
        s.len() - 1
    } else {
        last_index_of(s.drop_last(), c)
    }
}

/// The n-th alternative name for a file that already exists: " (n)" goes
/// before the extension (the part from the last '.', unless that '.'
/// starts the name), or at the end where there is none.
pub open spec fn numbered_name(name: Seq<char>, n: nat) -> Seq<char> {
    let dot = last_index_of(name, '.');
    let tag = " ("@ + decimal(n) + ")"@;
    if dot > 0 {
        name.subrange(0, dot) + tag + name.subrange(dot, name.len() as int)
    } else {
        name + tag
    }
}

fn last_dot(s: &str) -> (r: Option<usize>)
    ensures
        match r {
            Some(i) => i as int == last_index_of(s@, '.') && i < s@.len(),
            None => last_index_of(s@, '.') == -1,
        },
{
    let n = s.unicode_len();
    let mut i: usize = n;
    assert(s@.subrange(0, n as int) =~= s@);
    while i > 0
        invariant
            n == s@.len(),
            i <= n,
            last_index_of(s@, '.') == last_index_of(s@.subrange(0, i as int), '.'),
        decreases i,
    {
        assert(s@.subrange(0, i as int).drop_last() =~= s@.subrange(0, i - 1));
        if s.get_char(i - 1) == '.' {
            return Some(i - 1);
        }
        i = i - 1;
    }
    None
}

/// Names a further copy of a file: `report (1).pdf`, `notes (2)`.
pub fn numbered_file_name(file_name: &str, counter: u128) -> (r: String)
    ensures
        r@ == numbered_name(file_name@, counter as nat),
{
    let tag = String::from_str(" (").concat(decimal_text(counter).as_str()).concat(")");
    let n = file_name.unicode_len();
    match last_dot(file_name) {
        Some(idx) => if idx > 0 {
            let base = file_name.substring_char(0, idx);
            let ext = file_name.substring_char(idx, n);
            String::from_str(base).concat(tag.as_str()).concat(ext)
        } else {
            String::from_str(file_name).concat(tag.as_str())
        },
        None => String::from_str(file_name).concat(tag.as_str()),
    }
}

} // verus!

verus! {

// ---------------------------------------------------------------------
// The sending side's wait for the receiver's answer
// ---------------------------------------------------------------------

/// What a message means to a sender waiting for its offer to be answered.
#[derive(Debug, Clone, PartialEq, Eq)]
pub enum OfferAnswer {
    Accepted,
    Rejected { reason: String },
    Cancelled { reason: String },
    /// Not an answer to this offer; keep waiting.
    Pending,
}

fn reason_or(reason: &Option<String>, default: &str) -> (r: String)
    ensures
        r@ == match reason {
            Some(s) => s@,
            None => default@,
        },
{
    match reason {
        Some(s) => s.clone(),
        None => String::from_str(default),
    }
}

/// Reads the receiver's answer to the offer `transfer_id`: an accept, a
/// reject or a cancel with that id (a missing reason reads "rejected" or
/// "cancelled"); anything else leaves the offer pending.
pub fn offer_answer(message: &TransferMessage, transfer_id: &String) -> (r: OfferAnswer)
    ensures
        match message {
            TransferMessage::Accept { id } => if id@ == transfer_id@ {
                r == OfferAnswer::Accepted
            } else {
                r == OfferAnswer::Pending
            },
            TransferMessage::Reject { id, reason } => if id@ == transfer_id@ {
                r is Rejected && r->Rejected_reason@ == match reason {
                    Some(s) => s@,
                    None => "rejected"@,
                }
            } else {
                r == OfferAnswer::Pending
            },
            TransferMessage::Cancel { id, reason } => if id@ == transfer_id@ {
                r is Cancelled && r->Cancelled_reason@ == match reason {
                    Some(s) => s@,
                    None => "cancelled"@,
                }
            } else {
                r == OfferAnswer::Pending
            },
            _ => r == OfferAnswer::Pending,
        },
{
    match message {
        TransferMessage::Accept { id } => if *id == *transfer_id {
            OfferAnswer::Accepted
        } else {
            OfferAnswer::Pending
        },
        TransferMessage::Reject { id, reason } => if *id == *transfer_id {
            OfferAnswer::Rejected { reason: reason_or(reason, "rejected") }
        } else {
            OfferAnswer::Pending
        },
        TransferMessage::Cancel { id, reason } => if *id == *transfer_id {
            OfferAnswer::Cancelled { reason: reason_or(reason, "cancelled") }
        } else {
            OfferAnswer::Pending
        },
        _ => OfferAnswer::Pending,
    }
}

/// Whether a file of this size may be sent or received.
pub fn size_allowed(size: u64) -> (r: bool)
    ensures
        r == (size <= MAX_FILE_SIZE),
{
    size <= MAX_FILE_SIZE
}

// ---------------------------------------------------------------------
// The receiving side
// ---------------------------------------------------------------------

/// The file being received.
#[derive(Debug, Clone)]
pub struct IncomingFile {
    pub id: String,
    /// The announced name.
    pub name: String,
    /// The safe name it is stored under.
    pub safe_name: String,
    pub size: u64,
    pub sha256: String,
}

/// What the receiver does next.
#[derive(Debug, Clone, PartialEq, Eq)]
pub enum ReceiveStep {
    /// Answer with a reject ("size_limit") for this id and stop with an error.
    RejectTooLarge { id: String },
    /// Create the temporary file `temp_name`, then answer with an accept.
    Start { id: String, temp_name: String },
    /// Write the chunk to the file and feed it to the hash.
    Write,
    /// Nothing to do; wait for the next message.
    Wait,
    /// The peer cancelled this transfer: stop with an error.
    Cancelled,
    /// Everything has arrived: finish.
    Done,
}

/// The receiving side of a transfer: what was announced and how many bytes
/// have been written.
pub struct ReceiveSession {
    pub incoming: Option<IncomingFile>,
    pub received: u64,
}

/// The name of the temporary file of a transfer: `id.safe_name.tmp`.
pub open spec fn temp_name_of(id: Seq<char>, safe_name: Seq<char>) -> Seq<char> {
    id + "."@ + safe_name + ".tmp"@
}

pub open spec fn is_current(s: ReceiveSession, id: Seq<char>) -> bool {
    s.incoming is Some && s.incoming->Some_0.id@ == id
}

/// Whether all announced bytes have arrived.
pub open spec fn complete(s: ReceiveSession) -> bool {
    s.incoming is Some && s.received >= s.incoming->Some_0.size
}

pub open spec fn sat_add(a: u64, b: int) -> u64 {
    if a + b > u64::MAX {
        u64::MAX
    } else {
        (a + b) as u64
    }
}

impl ReceiveSession {
    pub fn new() -> (r: Self)
        ensures
            r.incoming is None,
            r.received == 0,
    {
        ReceiveSession { incoming: None, received: 0 }
    }

    /// Handles one message from the sender.
    ///
    /// An announcement over the size limit is refused; any other starts the
    /// file. A chunk is written where a file is open. An end or a cancel
    /// counts only for the current transfer. After each message, once every
    /// announced byte has arrived, the receiver is done.
    pub fn on_message(&mut self, message: &TransferMessage) -> (r: ReceiveStep)
        ensures
            match message {
                TransferMessage::Metadata { id, name, size, sha256, .. } => if *size > MAX_FILE_SIZE {
                    r == ReceiveStep::RejectTooLarge { id: *id } && *final(self) == *old(self)
                } else {
                    &&& final(self).incoming is Some
                    &&& final(self).incoming->Some_0.id == *id
                    &&& final(self).incoming->Some_0.name == *name
                    &&& final(self).incoming->Some_0.safe_name@ == crate::transfer::sanitized_name(name@)
                    &&& final(self).incoming->Some_0.size == *size
                    &&& final(self).incoming->Some_0.sha256 == *sha256
                    &&& final(self).received == old(self).received
                    &&& r is Start && r->Start_id == *id && r->Start_temp_name@ == temp_name_of(
                        id@,
                        sanitized_name(name@),
                    )
                },
                TransferMessage::Chunk { data } => {
                    &&& final(self).incoming == old(self).incoming
                    &&& final(self).received == if old(self).incoming is Some {
                        sat_add(old(self).received, data@.len() as int)
                    } else {
                        old(self).received
                    }
                    &&& r == if complete(*final(self)) {
                        ReceiveStep::Done
                    } else if old(self).incoming is Some {
                        ReceiveStep::Write
                    } else {
                        ReceiveStep::Wait
                    }
                },
                TransferMessage::Eof { id } => *final(self) == *old(self) && r == if is_current(
                    *old(self),
                    id@,
                ) || complete(*old(self)) {
                    ReceiveStep::Done
                } else {
                    ReceiveStep::Wait
                },
                TransferMessage::Reject { id, .. } => *final(self) == *old(self) && r == if is_current(
                    *old(self),
                    id@,
                ) {
                    ReceiveStep::Cancelled
                } else if complete(*old(self)) {
                    ReceiveStep::Done
                } else {
                    ReceiveStep::Wait
                },
                TransferMessage::Cancel { id, .. } => *final(self) == *old(self) && r == if is_current(
                    *old(self),
                    id@,
                ) {
                    ReceiveStep::Cancelled
                } else if complete(*old(self)) {
                    ReceiveStep::Done
                } else {
                    ReceiveStep::Wait
                },
                TransferMessage::Accept { .. } => *final(self) == *old(self) && r == if complete(*old(self)) {
                    ReceiveStep::Done
                } else {
                    ReceiveStep::Wait
                },
            },
    {
        match message {
            TransferMessage::Metadata { id, name, size, sha256, .. } => {
                if *size > MAX_FILE_SIZE {
                    return ReceiveStep::RejectTooLarge { id: id.clone() };
                }
                let safe_name = sanitize_file_name(name.as_str());
                let temp_name = id.clone().concat(".").concat(safe_name.as_str()).concat(".tmp");
                self.incoming = Some(
                    IncomingFile { id: id.clone(), name: name.clone(), safe_name, size: *size, sha256: sha256.clone() },
                );
                ReceiveStep::Start { id: id.clone(), temp_name }
            },
            TransferMessage::Chunk { data } => {
                if self.incoming.is_some() {
                    self.received = self.received.saturating_add(data.len() as u64);
                }
                if self.is_complete() {
                    ReceiveStep::Done
                } else if self.incoming.is_some() {
                    ReceiveStep::Write
                } else {
                    ReceiveStep::Wait
                }
            },
            TransferMessage::Eof { id } => {
                if self.is_current(id) || self.is_complete() {
                    ReceiveStep::Done
                } else {
                    ReceiveStep::Wait
                }
            },
            TransferMessage::Reject { id, .. } | TransferMessage::Cancel { id, .. } => {
                if self.is_current(id) {
                    ReceiveStep::Cancelled
                } else if self.is_complete() {
                    ReceiveStep::Done
                } else {
                    ReceiveStep::Wait
                }
            },
            TransferMessage::Accept { .. } => {
                if self.is_complete() {
                    ReceiveStep::Done
                } else {
                    ReceiveStep::Wait
                }
            },
        }
    }

    fn is_current(&self, id: &String) -> (r: bool)
        ensures
            r == is_current(*self, id@),
    {
        match &self.incoming {
            Some(f) => f.id == *id,
            None => false,
        }
    }

    fn is_complete(&self) -> (r: bool)
        ensures
            r == complete(*self),
    {
        match &self.incoming {
            Some(f) => self.received >= f.size,
            None => false,
        }
    }
}

} // verus!

verus! {

/// Why a received file is thrown away.
#[derive(Debug, Clone, Copy, PartialEq, Eq, Structural)]
pub enum TransferError {
    SizeMismatch,
    IntegrityCheckFailed,
}

impl ReceiveSession {
    /// The last step, given the SHA-256 (lower-case hex) of the bytes
    /// written: the safe name to store the file under, nothing where no file
    /// was announced, or why the file is thrown away (wrong size, wrong hash).
    pub fn finish(&self, computed_sha256: &String) -> (r: Result<Option<String>, TransferError>)
        ensures
            match self.incoming {
                None => r == Ok::<Option<String>, TransferError>(None),
                Some(f) => if self.received != f.size {
                    r == Err::<Option<String>, TransferError>(TransferError::SizeMismatch)
                } else if computed_sha256@ == f.sha256@ {
                    r is Ok && r->Ok_0 is Some && r->Ok_0->Some_0@ == f.safe_name@
                } else {
                    r == Err::<Option<String>, TransferError>(TransferError::IntegrityCheckFailed)
                },
            },
    {
        match &self.incoming {
            None => Ok(None),
            Some(f) => {
                if self.received != f.size {
                    Err(TransferError::SizeMismatch)
                } else if *computed_sha256 == f.sha256 {
                    Ok(Some(f.safe_name.clone()))
                } else {
                    Err(TransferError::IntegrityCheckFailed)
                }
            },
        }
    }
}

} // verus!
