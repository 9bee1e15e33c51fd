//! The event source: decides, for each readiness report of the input
//! channel, the resize channel and the clock, what to read and what to return.
//!
//! The host drives a read as follows: `try_read` first, then, for each action,
//! perform it and hand its outcome to the matching `on_*` method, until the
//! action is `Deliver` or `Fail`. `Poll` means: wait on the input and resize
//! descriptors (and on the clock, where a timeout was given).
use vstd::prelude::*;
use crate::event::{EventModel, EventOf, InternalEvent};
use crate::parser::{feed, Parser, ParserModel};
use crate::terminal::{size_from_query, TermError, ERRNO_NOSYS, ERRNO_NOTSUP};

verus! {

pub const CLOCK_TOKEN: u64 = 1;
pub const TTY_TOKEN: u64 = 2;
pub const RESIZE_TOKEN: u64 = 3;

/// Readiness kinds, numbered as the host's poll reports them.
pub const EVENTTYPE_CLOCK: u8 = 0;
pub const EVENTTYPE_FD_READ: u8 = 1;

/// Bit of a resize-channel payload that announces a window change.
pub const EVENT_WINCH: u8 = 1;

/// Initial size of the input read buffer.
pub const TTY_BUFFER_SIZE: usize = 1204;

/// File type of a character device, as the host's descriptor status reports it.
pub const FILETYPE_CHARACTER_DEVICE: u8 = 2;

/// The right to read from a descriptor, as a bit of its rights.
pub const RIGHTS_FD_READ: u64 = 2;

/// Whether a descriptor can serve as terminal input: a character device
/// that may be read.
pub fn can_poll(filetype: u8, rights: u64) -> (r: bool)
    ensures
        r == (filetype == FILETYPE_CHARACTER_DEVICE && rights & RIGHTS_FD_READ != 0),
{
    filetype == FILETYPE_CHARACTER_DEVICE && rights & RIGHTS_FD_READ != 0
}

/// One entry of a poll result.
#[derive(Clone, Copy, Debug, PartialEq, Eq, Structural)]
pub struct Readiness {
    /// The token of the subscription that became ready.
    pub token: u64,
    /// The kind of readiness.
    pub kind: u8,
    /// An error code; 0 for none.
    pub error: u16,
    /// For descriptor readiness, the number of bytes available.
    pub nbytes: u64,
}

/// What the host is to do next, over the type `E` of events.
#[derive(Clone, Debug, PartialEq, Eq)]
pub enum SourceActionOf<E> {
    /// Return this from the read.
    Deliver(Option<E>),
    /// Fail the read with this error.
    Fail(TermError),
    /// Wait for readiness and report it to `on_poll`.
    Poll,
    /// Read up to this many bytes of input and report them to `on_input`.
    ReadInput(usize),
    /// Read this many bytes of the resize channel and report them to `on_resize`.
    ReadResize(usize),
    /// Query the terminal size and report it to `on_size`.
    QuerySize,
}

pub type SourceAction = SourceActionOf<InternalEvent>;

pub type SourceActionModel = SourceActionOf<EventModel>;

impl View for SourceActionOf<InternalEvent> {
    type V = SourceActionModel;

    open spec fn view(&self) -> SourceActionModel {
        match self {
            SourceActionOf::Deliver(Some(e)) => SourceActionOf::Deliver(Some(e@)),
            SourceActionOf::Deliver(None) => SourceActionOf::Deliver(None),
            SourceActionOf::Fail(e) => SourceActionOf::Fail(*e),
            SourceActionOf::Poll => SourceActionOf::Poll,
            SourceActionOf::ReadInput(n) => SourceActionOf::ReadInput(*n),
            SourceActionOf::ReadResize(n) => SourceActionOf::ReadResize(*n),
            SourceActionOf::QuerySize => SourceActionOf::QuerySize,
        }
    }
}

/// What one poll reported, gathered over its entries.
pub struct PollSummary {
    /// The first error code reported.
    pub error: Option<u16>,
    /// Whether an entry names no registered channel.
    pub unknown: bool,
    /// Bytes available on the input channel, where it is ready.
    pub tty: Option<u64>,
    /// Bytes available on the resize channel, where it is ready.
    pub resize: Option<u64>,
    /// Whether the timeout elapsed.
    pub clock: bool,
}

pub open spec fn summary_step(s: PollSummary, r: Readiness) -> PollSummary {
    let s1 = if s.error.is_none() && r.error > 0 {
        PollSummary { error: Some(r.error), ..s }
    } else {
        s
    };
    if r.token == TTY_TOKEN && r.kind == EVENTTYPE_FD_READ {
        PollSummary { tty: Some(r.nbytes), ..s1 }
    } else if r.token == RESIZE_TOKEN && r.kind == EVENTTYPE_FD_READ {
        PollSummary { resize: Some(r.nbytes), ..s1 }
    } else if r.token == CLOCK_TOKEN && r.kind == EVENTTYPE_CLOCK {
        PollSummary { clock: true, ..s1 }
    } else {
        PollSummary { unknown: true, ..s1 }
    }
}

pub open spec fn summarize(rs: Seq<Readiness>) -> PollSummary
    decreases rs.len(),
{
    if rs.len() == 0 {
        PollSummary { error: None, unknown: false, tty: None, resize: None, clock: false }
    } else {
        summary_step(summarize(rs.drop_last()), rs.last())
    }
}

/// Abstract state of an event source.
pub struct SourceModel {
    pub parser: ParserModel,
    pub buffer_len: nat,
    /// Channels of the current poll not handled yet.
    pub tty: Option<u64>,
    pub resize: Option<u64>,
    pub clock: bool,
}

/// The next channel of the current poll to handle: input first, then
/// resize, then the clock; `Poll` once all are handled.
pub open spec fn dispatch_spec(m: SourceModel) -> (SourceModel, SourceActionModel) {
    match m.tty {
        Some(n) => (
            SourceModel {
                tty: None,
                buffer_len: if (n as usize) as nat > m.buffer_len {
                    (n as usize) as nat
                } else {
                    m.buffer_len
                },
                ..m
            },
            SourceActionOf::ReadInput(n as usize),
        ),
        None => match m.resize {
            Some(n) => (SourceModel { resize: None, ..m }, SourceActionOf::ReadResize(n as usize)),
            None => if m.clock {
                (SourceModel { clock: false, ..m }, SourceActionOf::Deliver(None))
            } else {
                (m, SourceActionOf::Poll)
            },
        },
    }
}

/// The first queued event is delivered, if there is one.
pub open spec fn deliver_or(m: SourceModel, otherwise: (SourceModel, SourceActionModel)) -> (SourceModel, SourceActionModel) {
    if m.parser.events.len() > 0 {
        (
            SourceModel {
                parser: ParserModel { buffer: m.parser.buffer, events: m.parser.events.drop_first() },
                ..m
            },
            SourceActionOf::Deliver(Some(m.parser.events[0])),
        )
    } else {
        otherwise
    }
}

pub open spec fn cleared(m: SourceModel) -> SourceModel {
    SourceModel { tty: None, resize: None, clock: false, ..m }
}

pub open spec fn try_read_spec(m: SourceModel) -> (SourceModel, SourceActionModel) {
    deliver_or(m, (cleared(m), SourceActionOf::Poll))
}

pub open spec fn on_poll_spec(m: SourceModel, r: Result<Seq<Readiness>, i32>) -> (SourceModel, SourceActionModel) {
    match r {
        Err(e) => (cleared(m), SourceActionOf::Fail(TermError::Io(e))),
        Ok(rs) => {
            let s = summarize(rs);
            if rs.len() == 0 {
                (cleared(m), SourceActionOf::Deliver(None))
            } else if s.error.is_some() {
                (cleared(m), SourceActionOf::Fail(TermError::Io(s.error.unwrap() as i32)))
            } else if s.unknown {
                (cleared(m), SourceActionOf::Fail(TermError::UnknownChannel))
            } else {
                dispatch_spec(SourceModel { tty: s.tty, resize: s.resize, clock: s.clock, ..m })
            }
        },
    }
}

pub open spec fn on_input_spec(m: SourceModel, r: Result<Seq<u8>, i32>) -> (SourceModel, SourceActionModel) {
    match r {
        Err(e) => (cleared(m), SourceActionOf::Fail(TermError::Io(e))),
        Ok(bytes) => {
            let m1 = SourceModel { parser: feed(m.parser, bytes, bytes.len() == m.buffer_len), ..m };
            deliver_or(m1, dispatch_spec(m1))
        },
    }
}

pub open spec fn on_resize_spec(m: SourceModel, r: Result<Seq<u8>, i32>) -> (SourceModel, SourceActionModel) {
    match r {
        Err(e) => (cleared(m), SourceActionOf::Fail(TermError::Io(e))),
        Ok(p) => if p.len() > 0 && p[0] & EVENT_WINCH != 0 {
            (m, SourceActionOf::QuerySize)
        } else {
            dispatch_spec(m)
        },
    }
}

pub open spec fn on_size_spec(m: SourceModel, r: Result<(u16, u16), i32>) -> (SourceModel, SourceActionModel) {
    match r {
        Err(e) => if e == ERRNO_NOSYS || e == ERRNO_NOTSUP {
            (cleared(m), SourceActionOf::Fail(TermError::Unsupported))
        } else {
            (cleared(m), SourceActionOf::Fail(TermError::Io(e)))
        },
        Ok((c, w)) => if c > 0 && w > 0 {
            (cleared(m), SourceActionOf::Deliver(Some(EventOf::Resize(c, w))))
        } else {
            (cleared(m), SourceActionOf::Fail(TermError::Unsupported))
        },
    }
}

/// Event source of a terminal: the parser, the size of the read buffer and
/// the channels of the current poll that are still to be handled.
pub struct WasiInternalEventSource {
    parser: Parser,
    tty_buffer_len: usize,
    tty: Option<u64>,
    resize: Option<u64>,
    clock: bool,
}

impl View for WasiInternalEventSource {
    type V = SourceModel;

    closed spec fn view(&self) -> SourceModel {
        SourceModel {
            parser: self.parser@,
            buffer_len: self.tty_buffer_len as nat,
            tty: self.tty,
            resize: self.resize,
            clock: self.clock,
        }
    }
}

impl WasiInternalEventSource {
    pub fn new() -> (r: Self)
        ensures
            r@ == (SourceModel {
                parser: crate::parser::fresh(),
                buffer_len: TTY_BUFFER_SIZE as nat,
                tty: None,
                resize: None,
                clock: false,
            }),
    {
        WasiInternalEventSource {
            parser: Parser::new(),
            tty_buffer_len: TTY_BUFFER_SIZE,
            tty: None,
            resize: None,
            clock: false,
        }
    }

    /// Size of the buffer the host reads input into.
    pub fn buffer_len(&self) -> (r: usize)
        ensures
            r as nat == self@.buffer_len,
    {
        self.tty_buffer_len
    }

    fn clear_ready(&mut self)
        ensures
            final(self)@ == cleared(old(self)@),
    {
        self.tty = None;
        self.resize = None;
        self.clock = false;
    }

    fn dispatch(&mut self) -> (r: SourceAction)
        ensures
            (final(self)@, r@) == dispatch_spec(old(self)@),
    {
        match self.tty {
            Some(n) => {
                self.tty = None;
                let k = n as usize;
                if k > self.tty_buffer_len {
                    self.tty_buffer_len = k;
                }
                SourceAction::ReadInput(k)
            },
            None => match self.resize {
                Some(n) => {
                    self.resize = None;
                    SourceAction::ReadResize(n as usize)
                },
                None => if self.clock {
                    self.clock = false;
                    SourceAction::Deliver(None)
                } else {
                    SourceAction::Poll
                },
            },
        }
    }

    /// Starts a read: delivers a queued event, or asks for a poll.
    pub fn try_read(&mut self) -> (r: SourceAction)
        ensures
            (final(self)@, r@) == try_read_spec(old(self)@),
    {
        match self.parser.next_event() {
            Some(e) => SourceAction::Deliver(Some(e)),
            None => {
                self.clear_ready();
                SourceAction::Poll
            },
        }
    }

    /// Takes the result of a poll.
    pub fn on_poll(&mut self, r: Result<Vec<Readiness>, i32>) -> (a: SourceAction)
        ensures
            (final(self)@, a@) == on_poll_spec(
                old(self)@,
                match r {
                    Ok(v) => Ok(v@),
                    Err(e) => Err(e),
                },
            ),
    {
        match r {
            Err(e) => {
                self.clear_ready();
                SourceAction::Fail(TermError::Io(e))
            },
            Ok(rs) => {
                if rs.len() == 0 {
                    self.clear_ready();
                    return SourceAction::Deliver(None);
                }
                let s = summarize_exec(&rs);
                match s.error {
                    Some(e) => {
                        self.clear_ready();
                        SourceAction::Fail(TermError::Io(e as i32))
                    },
                    None => if s.unknown {
                        self.clear_ready();
                        SourceAction::Fail(TermError::UnknownChannel)
                    } else {
                        self.tty = s.tty;
                        self.resize = s.resize;
                        self.clock = s.clock;
                        self.dispatch()
                    },
                }
            },
        }
    }

    /// Takes the bytes read from the input channel.
    pub fn on_input(&mut self, r: Result<Vec<u8>, i32>) -> (a: SourceAction)
        ensures
            (final(self)@, a@) == on_input_spec(
                old(self)@,
                match r {
                    Ok(v) => Ok(v@),
                    Err(e) => Err(e),
                },
            ),
    {
        match r {
            Err(e) => {
                self.clear_ready();
                SourceAction::Fail(TermError::Io(e))
            },
            Ok(bytes) => {
                let more = bytes.len() == self.tty_buffer_len;
                self.parser.advance(bytes.as_slice(), more);
                match self.parser.next_event() {
                    Some(e) => SourceAction::Deliver(Some(e)),
                    None => self.dispatch(),
                }
            },
        }
    }

    /// Takes the payload read from the resize channel.
    pub fn on_resize(&mut self, r: Result<Vec<u8>, i32>) -> (a: SourceAction)
        ensures
            (final(self)@, a@) == on_resize_spec(
                old(self)@,
                match r {
                    Ok(v) => Ok(v@),
                    Err(e) => Err(e),
                },
            ),
    {
        match r {
            Err(e) => {
                self.clear_ready();
                SourceAction::Fail(TermError::Io(e))
            },
            Ok(p) => if p.len() > 0 && p[0] & EVENT_WINCH != 0 {
                SourceAction::QuerySize
            } else {
                self.dispatch()
            },
        }
    }

    /// Takes the terminal size queried after a window change.
    pub fn on_size(&mut self, r: Result<(u16, u16), i32>) -> (a: SourceAction)
        ensures
            (final(self)@, a@) == on_size_spec(old(self)@, r),
    {
        self.clear_ready();
        match size_from_query(r) {
            Ok((c, w)) => SourceAction::Deliver(Some(InternalEvent::Resize(c, w))),
            Err(e) => SourceAction::Fail(e),
        }
    }
}

/// Gathers the entries of a poll result.
pub fn summarize_exec(rs: &Vec<Readiness>) -> (s: PollSummary)
    ensures
        s == summarize(rs@),
{
    let mut s = PollSummary { error: None, unknown: false, tty: None, resize: None, clock: false };
    let mut i: usize = 0;
    assert(rs@.subrange(0, 0) =~= Seq::<Readiness>::empty());
    while i < rs.len()
        invariant
            i <= rs@.len(),
            s == summarize(rs@.subrange(0, i as int)),
        decreases rs@.len() - i,
    {
        assert(rs@.subrange(0, i + 1).drop_last() =~= rs@.subrange(0, i as int));
        let r = rs[i];
        if s.error.is_none() && r.error > 0 {
            s.error = Some(r.error);
        }
        if r.token == TTY_TOKEN && r.kind == EVENTTYPE_FD_READ {
            s.tty = Some(r.nbytes);
        } else if r.token == RESIZE_TOKEN && r.kind == EVENTTYPE_FD_READ {
            s.resize = Some(r.nbytes);
        } else if r.token == CLOCK_TOKEN && r.kind == EVENTTYPE_CLOCK {
            s.clock = true;
        } else {
            s.unknown = true;
        }
        i = i + 1;
    }
    assert(rs@.subrange(0, rs@.len() as int) =~= rs@);
    s
}

} // verus!
