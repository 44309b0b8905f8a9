use vstd::prelude::*;

use crate::cursor::{
    cursor_byte_offset, cursor_byte_offset_of, cursor_code_units, cursor_prefix,
    lemma_cursor_offset_is_longest_prefix, utf16_len, utf8_len,
};

verus! {

/// Selects the composition string that is being edited.
pub const GCS_COMPSTR: u32 = 0x0008;

/// Selects the cursor position within the composition string.
pub const GCS_CURSORPOS: u32 = 0x0080;

/// Selects the string that the composition has produced.
pub const GCS_RESULTSTR: u32 = 0x0800;

/// Returned by a query when there is no data for it.
pub const IMM_ERROR_NODATA: i32 = -1;

/// Returned by a query that failed.
pub const IMM_ERROR_GENERAL: i32 = -2;

/// The text that a lossy UTF-16 decode makes of `units`: unpaired surrogates
/// become U+FFFD.
pub uninterp spec fn utf16_lossy(units: Seq<u16>) -> Seq<char>;

/// Relies on `String::from_utf16_lossy`: decodes UTF-16, replacing invalid
/// data with U+FFFD, and never fails.
#[verifier::external_body]
fn decode_utf16_lossy(units: &[u16]) -> (text: String)
    ensures
        text@ == utf16_lossy(units@),
        units@.len() == 0 ==> text@.len() == 0,
{
    String::from_utf16_lossy(units)
}

/// What the caller is asked to do next while a composition string is read.
#[derive(Debug, PartialEq, Eq)]
pub enum ReadAction {
    /// Query `kind` without a buffer and report the value returned.
    Probe { kind: u32 },
    /// Query `kind` into a fresh buffer of `units` code units (`byte_len`
    /// bytes), and report the value returned and the buffer.
    Fill { kind: u32, units: usize, byte_len: u32 },
    /// The read is over: the text and the cursor's byte offset in it, or
    /// nothing when the context had no composition data.
    Finish { result: Option<(String, usize)> },
}

/// What a native query returned.
#[derive(Debug, PartialEq, Eq)]
pub enum ReadEvent {
    /// The value returned by a query without a buffer.
    Returned { value: i32 },
    /// The value returned by a query with a buffer, and that buffer.
    Filled { value: i32, buffer: Vec<u16> },
}

/// The progress of one composition-string read.
#[derive(Debug, PartialEq, Eq)]
pub enum CompositionRead {
    /// The byte length of string `kind` was asked for.
    AwaitingLength { kind: u32 },
    /// String `kind` was asked for into a buffer.
    AwaitingFill { kind: u32 },
    /// The text is decoded; the cursor was asked for.
    AwaitingCursor { text: String },
    /// The read is over.
    Done,
}

/// Model of [`ReadAction`].
pub enum ReadActionView {
    Probe { kind: u32 },
    Fill { kind: u32, units: nat, byte_len: nat },
    Finish { result: Option<(Seq<char>, nat)> },
}

/// Model of [`ReadEvent`].
pub enum ReadEventView {
    Returned { value: i32 },
    Filled { value: i32, buffer: Seq<u16> },
}

/// Model of [`CompositionRead`].
pub enum ReadStateView {
    AwaitingLength { kind: u32 },
    AwaitingFill { kind: u32 },
    AwaitingCursor { text: Seq<char> },
    Done,
}

impl View for ReadAction {
    type V = ReadActionView;

    open spec fn view(&self) -> ReadActionView {
        match self {
            ReadAction::Probe { kind } => ReadActionView::Probe { kind: *kind },
            ReadAction::Fill { kind, units, byte_len } => ReadActionView::Fill {
                kind: *kind,
                units: *units as nat,
                byte_len: *byte_len as nat,
            },
            ReadAction::Finish { result } => ReadActionView::Finish {
                result: match result {
                    Some((text, offset)) => Some((text@, *offset as nat)),
                    None => None,
                },
            },
        }
    }
}

impl View for ReadEvent {
    type V = ReadEventView;

    open spec fn view(&self) -> ReadEventView {
        match self {
            ReadEvent::Returned { value } => ReadEventView::Returned { value: *value },
            ReadEvent::Filled { value, buffer } => ReadEventView::Filled {
                value: *value,
                buffer: buffer@,
            },
        }
    }
}

impl View for CompositionRead {
    type V = ReadStateView;

    open spec fn view(&self) -> ReadStateView {
        match self {
            CompositionRead::AwaitingLength { kind } => ReadStateView::AwaitingLength {
                kind: *kind,
            },
            CompositionRead::AwaitingFill { kind } => ReadStateView::AwaitingFill { kind: *kind },
            CompositionRead::AwaitingCursor { text } => ReadStateView::AwaitingCursor {
                text: text@,
            },
            CompositionRead::Done => ReadStateView::Done,
        }
    }
}

/// The request made for a string whose probe reported `value`: negative
/// values are error codes and end the read with no data; otherwise a buffer
/// of whole code units within `value` bytes is filled.
pub open spec fn after_length(kind: u32, value: i32) -> (ReadStateView, ReadActionView) {
    if value < 0 {
        (ReadStateView::Done, ReadActionView::Finish { result: None })
    } else {
        (
            ReadStateView::AwaitingFill { kind },
            ReadActionView::Fill {
                kind,
                units: (value / 2) as nat,
                byte_len: (2 * (value / 2)) as nat,
            },
        )
    }
}

/// The request made once a fill reported `value` with `buffer`: an error code
/// ends the read with no data; otherwise the buffer's lossy decode is kept and
/// the cursor is asked for.
pub open spec fn after_fill(value: i32, buffer: Seq<u16>) -> (ReadStateView, ReadActionView) {
    if value < 0 {
        (ReadStateView::Done, ReadActionView::Finish { result: None })
    } else {
        (
            ReadStateView::AwaitingCursor { text: utf16_lossy(buffer) },
            ReadActionView::Probe { kind: GCS_CURSORPOS },
        )
    }
}

/// The result once the cursor query reported `value`: its low 16 bits are a
/// code-unit offset, translated into a byte offset in `text`.
pub open spec fn after_cursor(text: Seq<char>, value: i32) -> (ReadStateView, ReadActionView) {
    (
        ReadStateView::Done,
        ReadActionView::Finish {
            result: Some((text, cursor_byte_offset_of(text, value as int % 0x1_0000))),
        },
    )
}

/// One step of a composition-string read. An event that does not answer the
/// pending request ends the read with no data.
pub open spec fn read_transition(state: ReadStateView, event: ReadEventView) -> (
    ReadStateView,
    ReadActionView,
) {
    match (state, event) {
        (ReadStateView::AwaitingLength { kind }, ReadEventView::Returned { value }) => after_length(
            kind,
            value,
        ),
        (ReadStateView::AwaitingFill { .. }, ReadEventView::Filled { value, buffer }) => after_fill(
            value,
            buffer,
        ),
        (ReadStateView::AwaitingCursor { text }, ReadEventView::Returned { value }) => after_cursor(
            text,
            value,
        ),
        _ => (ReadStateView::Done, ReadActionView::Finish { result: None }),
    }
}

/// A length probe that reports no data or a failure ends the read with no
/// result, and no buffer is asked for.
pub proof fn lemma_error_probe_ends_read(kind: u32, value: i32)
    requires
        value == IMM_ERROR_NODATA || value == IMM_ERROR_GENERAL,
    ensures
        read_transition(
            ReadStateView::AwaitingLength { kind },
            ReadEventView::Returned { value },
        ) == (ReadStateView::Done, ReadActionView::Finish { result: None }),
{
}

/// Whatever a length probe reports, a buffer is asked for only for a
/// non-negative length, and it holds whole code units within that many bytes.
pub proof fn lemma_fill_request_within_probe(kind: u32, value: i32)
    ensures
        read_transition(ReadStateView::AwaitingLength { kind }, ReadEventView::Returned { value }).1
            matches ReadActionView::Fill { units, byte_len, .. } ==> {
            &&& 0 <= value
            &&& byte_len == 2 * units
            &&& byte_len <= value
        },
{
}

/// After a successful fill of `buffer`, the read returns the buffer's lossy
/// decode, and the cursor's byte offset is the UTF-8 length of the longest
/// prefix of that text that spans at most the low 16 bits of `cursor` in
/// UTF-16 code units.
pub proof fn lemma_read_returns_decoded_text(
    kind: u32,
    value: i32,
    buffer: Seq<u16>,
    cursor: i32,
)
    requires
        0 <= value,
    ensures
        ({
            let text = utf16_lossy(buffer);
            let cu = cursor as int % 0x1_0000;
            let k = cursor_prefix(text, cu) as int;
            let (filled, request) = read_transition(
                ReadStateView::AwaitingFill { kind },
                ReadEventView::Filled { value, buffer },
            );
            let (done, finish) = read_transition(filled, ReadEventView::Returned { value: cursor });
            &&& request == (ReadActionView::Probe { kind: GCS_CURSORPOS })
            &&& done == ReadStateView::Done
            &&& finish == (ReadActionView::Finish { result: Some((text, utf8_len(text.take(k)))) })
            &&& utf16_len(text.take(k)) <= cu
            &&& forall|j: int| k < j <= text.len() ==> #[trigger] utf16_len(text.take(j)) > cu
        }),
{
    lemma_cursor_offset_is_longest_prefix(utf16_lossy(buffer), cursor as int % 0x1_0000);
}

impl CompositionRead {
    /// Begins reading string `kind`: its byte length is probed first.
    pub fn start(kind: u32) -> (r: (CompositionRead, ReadAction))
        ensures
            r.0@ == (ReadStateView::AwaitingLength { kind }),
            r.1@ == (ReadActionView::Probe { kind }),
    {
        (CompositionRead::AwaitingLength { kind }, ReadAction::Probe { kind })
    }

    /// Takes the answer to the pending request and gives the next state and
    /// request.
    pub fn step(self, event: ReadEvent) -> (r: (CompositionRead, ReadAction))
        ensures
            (r.0@, r.1@) == read_transition(self@, event@),
    {
        match (self, event) {
            (CompositionRead::AwaitingLength { kind }, ReadEvent::Returned { value }) => {
                if value < 0 {
                    (CompositionRead::Done, ReadAction::Finish { result: None })
                } else {
                    let units = (value as usize) / 2;
                    let byte_len = (units * 2) as u32;
                    (CompositionRead::AwaitingFill { kind }, ReadAction::Fill { kind, units, byte_len })
                }
            },
            (CompositionRead::AwaitingFill { .. }, ReadEvent::Filled { value, buffer }) => {
                if value < 0 {
                    (CompositionRead::Done, ReadAction::Finish { result: None })
                } else {
                    let text = decode_utf16_lossy(buffer.as_slice());
                    (CompositionRead::AwaitingCursor { text }, ReadAction::Probe { kind: GCS_CURSORPOS })
                }
            },
            (CompositionRead::AwaitingCursor { text }, ReadEvent::Returned { value }) => {
                let offset = cursor_byte_offset(text.as_str(), cursor_code_units(value));
                (CompositionRead::Done, ReadAction::Finish { result: Some((text, offset)) })
            },
            _ => (CompositionRead::Done, ReadAction::Finish { result: None }),
        }
    }
}

} // verus!
