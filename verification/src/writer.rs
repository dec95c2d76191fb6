//! The move-command writer and its abstract destination sink.

use vstd::prelude::*;

use crate::position::GCodePosition;
use crate::render::{chars_to_string, fixed_str, push_fixed};
use crate::GCodeError;

verus! {

/// The options bag accepted by [`GCodeWriter::move_to`]: one recognized
/// field, an optional feed rate, stored in the same fixed-point form as the
/// coordinates (the true rate multiplied by [`crate::FIXED_SCALE`]).
#[derive(Clone, Copy, Debug, PartialEq, Eq)]
pub struct GCodeOptions {
    pub feed_rate: Option<i64>,
}

/// An abstract destination: anything that accepts written text and supports
/// an explicit flush. `contents` is the text the sink has accepted so far.
///
/// A failing write or flush reports the I/O error kind; a flush never changes
/// the accepted text.
pub trait GCodeSink: Sized {
    /// The text accepted so far: the model that the writer's contracts speak
    /// of. A destination implemented in unverified surroundings (a file, a
    /// socket) may leave the default in place, since nothing checks its
    /// method contracts there.
    open spec fn contents(&self) -> Seq<char> {
        Seq::<char>::empty()
    }

    fn write_str(&mut self, s: &str) -> (r: Result<(), GCodeError>)
        ensures
            r is Ok ==> final(self).contents() == old(self).contents() + s@,
            r is Err ==> r->Err_0 == GCodeError::IOError,
    ;

    fn flush(&mut self) -> (r: Result<(), GCodeError>)
        ensures
            final(self).contents() == old(self).contents(),
            r is Err ==> r->Err_0 == GCodeError::IOError,
    ;
}

/// An in-memory sink that accumulates everything written to it in a
/// `String`. Its writes and flushes never fail.
pub struct StringSink {
    data: String,
}

impl StringSink {
    /// An empty sink.
    pub fn new() -> (s: Self)
        ensures
            s.contents() == Seq::<char>::empty(),
    {
        StringSink { data: String::new() }
    }

    /// Hands the accumulated text out, consuming the sink.
    pub fn into_string(self) -> (r: String)
        ensures
            r@ == self.contents(),
    {
        self.data
    }
}

impl GCodeSink for StringSink {
    closed spec fn contents(&self) -> Seq<char> {
        self.data@
    }

    fn write_str(&mut self, s: &str) -> (r: Result<(), GCodeError>)
        ensures
            r is Ok,
    {
        self.data.append(s);
        Ok(())
    }

    fn flush(&mut self) -> (r: Result<(), GCodeError>)
        ensures
            r is Ok,
    {
        Ok(())
    }
}

/// The move-command code token: `G00` for a rapid (fast) move, `G01` for a
/// controlled-speed linear move.
pub open spec fn code_str(fast: bool) -> Seq<char> {
    if fast {
        seq!['G', '0', '0']
    } else {
        seq!['G', '0', '1']
    }
}

/// The token one present axis contributes to a move-command line: a single
/// leading space, the axis letter, and the coordinate with exactly 4 digits
/// after the decimal point. An absent axis contributes nothing.
pub open spec fn axis_str(letter: char, a: Option<i64>) -> Seq<char> {
    if a is Some {
        seq![' ', letter] + fixed_str(a->0 as int, 4)
    } else {
        Seq::empty()
    }
}

/// The feed-rate token: a single leading space, `F`, and the rate with
/// exactly 2 digits after the decimal point; emitted only when options are
/// supplied and carry a feed rate.
pub open spec fn feed_str(options: Option<GCodeOptions>) -> Seq<char> {
    if options is Some && options->0.feed_rate is Some {
        seq![' ', 'F'] + fixed_str(options->0.feed_rate->0 as int, 2)
    } else {
        Seq::empty()
    }
}

/// The full move-command line, with no trailing line terminator: the code,
/// then one token per present axis in the fixed order X, Y, Z, then the
/// feed-rate token when present. Omitted axes and feed leave no gap or
/// placeholder.
pub open spec fn move_line(
    pos: GCodePosition,
    options: Option<GCodeOptions>,
    fast: bool,
) -> Seq<char> {
    code_str(fast) + axis_str('X', pos.x) + axis_str('Y', pos.y) + axis_str('Z', pos.z)
        + feed_str(options)
}

/// Appends the token of one axis (nothing when the axis is absent).
fn push_axis(out: &mut Vec<char>, letter: char, a: Option<i64>)
    ensures
        final(out)@ == old(out)@ + axis_str(letter, a),
{
    if let Some(v) = a {
        out.push(' ');
        out.push(letter);
        push_fixed(out, v, 4);
        proof {
            let fx = fixed_str(v as int, 4);
            assert(out@ =~= old(out)@ + (seq![' ', letter] + fx));
        }
    } else {
        proof {
            assert(out@ =~= old(out)@ + axis_str(letter, a));
        }
    }
}

/// Appends the feed-rate token (nothing when no rate was supplied).
fn push_feed(out: &mut Vec<char>, options: Option<GCodeOptions>)
    ensures
        final(out)@ == old(out)@ + feed_str(options),
{
    let feed: Option<i64> = match options {
        Some(opts) => opts.feed_rate,
        None => None,
    };
    if let Some(f) = feed {
        out.push(' ');
        out.push('F');
        push_fixed(out, f, 2);
        proof {
            let fx = fixed_str(f as int, 2);
            assert(out@ =~= old(out)@ + (seq![' ', 'F'] + fx));
        }
    } else {
        proof {
            assert(out@ =~= old(out)@ + feed_str(options));
        }
    }
}

/// Renders the full move-command line as a string.
fn render_move(pos: GCodePosition, options: Option<GCodeOptions>, fast: bool) -> (s: String)
    ensures
        s@ == move_line(pos, options, fast),
{
    let mut cs: Vec<char> = Vec::new();
    cs.push('G');
    cs.push('0');
    if fast {
        cs.push('0');
    } else {
        cs.push('1');
    }
    proof {
        assert(cs@ =~= code_str(fast));
    }
    push_axis(&mut cs, 'X', pos.x);
    push_axis(&mut cs, 'Y', pos.y);
    push_axis(&mut cs, 'Z', pos.z);
    push_feed(&mut cs, options);
    chars_to_string(&cs)
}

/// Emits move-command lines to a destination sink that it owns exclusively
/// for its lifetime.
pub struct GCodeWriter<S: GCodeSink> {
    sink: S,
}

impl<S: GCodeSink> GCodeWriter<S> {
    /// The destination currently owned by the writer.
    pub closed spec fn inner(&self) -> S {
        self.sink
    }

    /// The text the destination has accepted so far.
    pub open spec fn contents(&self) -> Seq<char> {
        self.inner().contents()
    }

    /// Constructs a writer over `sink`, which the writer then owns
    /// exclusively.
    pub fn new(sink: S) -> (r: Result<GCodeWriter<S>, GCodeError>)
        ensures
            r is Ok,
            r matches Ok(w) ==> w.inner() == sink,
    {
        Ok(GCodeWriter { sink })
    }

    /// Emits exactly one move-command line (no trailing line terminator) to
    /// the destination: on success the destination has accepted exactly
    /// [`move_line`]`(pos, options, fast)` beyond what it held before; a
    /// failed write surfaces the I/O error kind.
    pub fn move_to(&mut self, pos: GCodePosition, options: Option<GCodeOptions>, fast: bool) -> (r:
        Result<(), GCodeError>)
        ensures
            r is Ok ==> final(self).contents() == old(self).contents() + move_line(
                pos,
                options,
                fast,
            ),
            r is Err ==> r->Err_0 == GCodeError::IOError,
    {
        let line = render_move(pos, options, fast);
        match self.sink.write_str(line.as_str()) {
            Ok(()) => Ok(()),
            Err(_) => Err(GCodeError::IOError),
        }
    }

    /// Forces buffered output to the destination; fails with the I/O error
    /// kind if the underlying flush operation fails. The text the destination
    /// has accepted is unchanged either way.
    pub fn flush(&mut self) -> (r: Result<(), GCodeError>)
        ensures
            final(self).contents() == old(self).contents(),
            r is Err ==> r->Err_0 == GCodeError::IOError,
    {
        match self.sink.flush() {
            Ok(()) => Ok(()),
            Err(_) => Err(GCodeError::IOError),
        }
    }

    /// Drops self and relinquishes the contained destination back to the
    /// caller, without closing or finalizing it.
    pub fn writer(self) -> (r: S)
        ensures
            r == self.inner(),
    {
        self.sink
    }
}

} // verus!
