//! The Telnet control-sequence filter.
//!
//! Telnet escapes protocol control data with the IAC byte (255). This module
//! removes those control sequences from a raw byte stream and keeps the
//! application payload. The filter is a small state machine so that a control
//! sequence split across two reads is still recognised: the state is threaded
//! through every chunk of one connection.

use vstd::prelude::*;

verus! {

/// The Telnet "interpret as command" escape byte; it introduces every
/// control sequence.
pub const IAC: u8 = 255;

/// Command byte opening a sub-negotiation (IAC SB ... IAC SE).
pub const SB: u8 = 250;

/// Command byte closing a sub-negotiation.
pub const SE: u8 = 240;

/// First of the four option-negotiation command bytes (WILL); WONT, DO and
/// DONT follow at 252, 253 and 254.
pub const WILL: u8 = 251;

/// Last of the four option-negotiation command bytes (DONT).
pub const DONT: u8 = 254;

/// Parsing mode of the control-sequence filter, persisted across chunks of
/// one connection so that sequences split across reads are handled.
#[derive(Clone, Copy, PartialEq, Eq, Structural, Debug)]
pub enum FilterState {
    /// Ordinary payload; bytes other than IAC pass through.
    Normal,
    /// An escape byte was seen; the command byte is still owed.
    AwaitingCommand,
    /// An option-negotiation command was seen; its option byte is still owed.
    AwaitingOptionByte,
    /// Inside a sub-negotiation; everything is dropped until IAC SE.
    InSubnegotiation,
    /// Inside a sub-negotiation, right after an escape byte.
    AwaitingSubnegotiationEnd,
}

impl FilterState {
    /// The mode a fresh connection starts in.
    pub fn new() -> (st: FilterState)
        ensures
            st == FilterState::Normal,
    {
        FilterState::Normal
    }
}

/// The mode the filter is in after reading one byte in mode `st`.
pub open spec fn step_state(st: FilterState, b: u8) -> FilterState {
    match st {
        FilterState::Normal => if b == IAC {
            FilterState::AwaitingCommand
        } else {
            FilterState::Normal
        },
        FilterState::AwaitingCommand => if b == IAC {
            FilterState::Normal
        } else if b == SB {
            FilterState::InSubnegotiation
        } else if WILL <= b && b <= DONT {
            FilterState::AwaitingOptionByte
        } else {
            FilterState::Normal
        },
        FilterState::AwaitingOptionByte => FilterState::Normal,
        FilterState::InSubnegotiation => if b == IAC {
            FilterState::AwaitingSubnegotiationEnd
        } else {
            FilterState::InSubnegotiation
        },
        FilterState::AwaitingSubnegotiationEnd => if b == SE {
            FilterState::Normal
        } else if b == IAC {
            FilterState::AwaitingSubnegotiationEnd
        } else {
            FilterState::InSubnegotiation
        },
    }
}

/// The payload the filter emits for one byte read in mode `st`: a plain byte
/// passes through, an escaped IAC (IAC IAC) emits one IAC, everything that
/// belongs to a control sequence emits nothing.
pub open spec fn step_output(st: FilterState, b: u8) -> Seq<u8> {
    match st {
        FilterState::Normal => if b == IAC {
            seq![]
        } else {
            seq![b]
        },
        FilterState::AwaitingCommand => if b == IAC {
            seq![IAC]
        } else {
            seq![]
        },
        _ => seq![],
    }
}

/// The mode after reading a whole chunk starting in mode `st`.
pub open spec fn state_after(data: Seq<u8>, st: FilterState) -> FilterState
    decreases data.len(),
{
    if data.len() == 0 {
        st
    } else {
        state_after(data.drop_first(), step_state(st, data.first()))
    }
}

/// The payload left after filtering a whole chunk starting in mode `st`.
pub open spec fn filtered(data: Seq<u8>, st: FilterState) -> Seq<u8>
    decreases data.len(),
{
    if data.len() == 0 {
        seq![]
    } else {
        step_output(st, data.first()) + filtered(data.drop_first(), step_state(st, data.first()))
    }
}

/// Filtering one more byte at the end of a chunk appends that byte's output.
proof fn lemma_filter_snoc(data: Seq<u8>, b: u8, st: FilterState)
    ensures
        state_after(data.push(b), st) == step_state(state_after(data, st), b),
        filtered(data.push(b), st) == filtered(data, st) + step_output(state_after(data, st), b),
    decreases data.len(),
{
    reveal_with_fuel(filtered, 2);
    reveal_with_fuel(state_after, 2);
    if data.len() == 0 {
        assert(data.push(b).first() == b);
        assert(data.push(b).drop_first() =~= Seq::<u8>::empty());
        assert(filtered(data.push(b), st) =~= step_output(st, b));
        assert(filtered(data, st) + step_output(st, b) =~= step_output(st, b));
    } else {
        assert(data.push(b).first() == data.first());
        assert(data.push(b).drop_first() =~= data.drop_first().push(b));
        lemma_filter_snoc(data.drop_first(), b, step_state(st, data.first()));
        assert(filtered(data.push(b), st) =~= filtered(data, st) + step_output(
            state_after(data, st),
            b,
        ));
    }
}

/// Remove the Telnet control sequences from one chunk of a stream.
///
/// `state` is the filter mode carried over from the previous chunk of the
/// same connection; it is updated so that a control sequence split across
/// two chunks is still recognised. The returned bytes are exactly the
/// application payload of this chunk.
pub fn filter(data: &[u8], state: &mut FilterState) -> (out: Vec<u8>)
    ensures
        out@ == filtered(data@, *old(state)),
        *final(state) == state_after(data@, *old(state)),
{
    let ghost st0 = *state;
    let mut out: Vec<u8> = Vec::new();
    let n = data.len();
    let mut i: usize = 0;
    while i < n
        invariant
            i <= n,
            n == data@.len(),
            out@ == filtered(data@.subrange(0, i as int), st0),
            *state == state_after(data@.subrange(0, i as int), st0),
        decreases n - i,
    {
        let b = data[i];
        proof {
            assert(data@.subrange(0, i + 1) =~= data@.subrange(0, i as int).push(data@[i as int]));
            lemma_filter_snoc(data@.subrange(0, i as int), b, st0);
        }
        match *state {
            FilterState::Normal => {
                if b == IAC {
                    *state = FilterState::AwaitingCommand;
                } else {
                    out.push(b);
                }
            },
            FilterState::AwaitingCommand => {
                if b == IAC {
                    out.push(IAC);
                    *state = FilterState::Normal;
                } else if b == SB {
                    *state = FilterState::InSubnegotiation;
                } else if WILL <= b && b <= DONT {
                    *state = FilterState::AwaitingOptionByte;
                } else {
                    *state = FilterState::Normal;
                }
            },
            FilterState::AwaitingOptionByte => {
                *state = FilterState::Normal;
            },
            FilterState::InSubnegotiation => {
                if b == IAC {
                    *state = FilterState::AwaitingSubnegotiationEnd;
                }
            },
            FilterState::AwaitingSubnegotiationEnd => {
                if b == SE {
                    *state = FilterState::Normal;
                } else if b != IAC {
                    *state = FilterState::InSubnegotiation;
                }
            },
        }
        i = i + 1;
    }
    proof {
        assert(data@.subrange(0, n as int) =~= data@);
    }
    out
}

/// Remove the Telnet control sequences from a chunk taken on its own, as a
/// fresh connection would see it.
pub fn filter_telnet_commands(data: &[u8]) -> (out: Vec<u8>)
    ensures
        out@ == filtered(data@, FilterState::Normal),
{
    let mut state = FilterState::new();
    filter(data, &mut state)
}

/// A chunk without the escape byte passes through unchanged and leaves the
/// filter in its starting mode.
pub proof fn lemma_filter_transparent(data: Seq<u8>)
    requires
        forall|i: int| 0 <= i < data.len() ==> data[i] != IAC,
    ensures
        filtered(data, FilterState::Normal) == data,
        state_after(data, FilterState::Normal) == FilterState::Normal,
    decreases data.len(),
{
    if data.len() == 0 {
        assert(filtered(data, FilterState::Normal) =~= data);
    } else {
        lemma_filter_transparent(data.drop_first());
        assert(filtered(data, FilterState::Normal) =~= data);
    }
}

/// Filtering a stream in two chunks with the state threaded through gives
/// the same payload as filtering it in one piece: splitting a control
/// sequence across reads does not change what comes out.
pub proof fn lemma_filter_split(a: Seq<u8>, b: Seq<u8>, st: FilterState)
    ensures
        filtered(a + b, st) == filtered(a, st) + filtered(b, state_after(a, st)),
        state_after(a + b, st) == state_after(b, state_after(a, st)),
    decreases a.len(),
{
    if a.len() == 0 {
        assert(a + b =~= b);
        assert(filtered(a, st) + filtered(b, st) =~= filtered(b, st));
    } else {
        assert((a + b).first() == a.first());
        assert((a + b).drop_first() =~= a.drop_first() + b);
        lemma_filter_split(a.drop_first(), b, step_state(st, a.first()));
        assert(filtered(a + b, st) =~= filtered(a, st) + filtered(b, state_after(a, st)));
    }
}

} // verus!

