//! The playback of a message: the sequence of writes, tones and pauses that
//! shows each character as text and sounds its code.

use vstd::prelude::*;

use crate::table::{allowed, code_for, glyph_of, lookup, Symbol};
use crate::validate::{all_allowed, validate, validation, MessageError};

verus! {

/// The pitch of every tone, in hertz.
pub const TONE_HZ: u32 = 700;

/// How long a dot sounds, in milliseconds: one unit.
pub const DOT_MS: u64 = 50;

/// How long a dash sounds, in milliseconds: three units.
pub const DASH_MS: u64 = 150;

/// The pause after the code of a character, in milliseconds.
pub const CHAR_GAP_MS: u64 = 300;

/// The pause for a space between words, in milliseconds.
pub const WORD_GAP_MS: u64 = 150;

/// One thing that playback does, in order.
#[derive(Clone, Copy, Debug, PartialEq, Eq, Structural)]
pub enum Step {
    /// Write the glyph of a symbol.
    Glyph(Symbol),
    /// Sound a tone of `TONE_HZ` for this many milliseconds, and wait until
    /// it has ended.
    Tone(u64),
    /// Wait this many milliseconds.
    Pause(u64),
    /// Write a line break.
    LineBreak,
}

/// How long a symbol sounds, in milliseconds.
pub open spec fn tone_ms(s: Symbol) -> u64 {
    match s {
        Symbol::Dot => DOT_MS,
        Symbol::Dash => DASH_MS,
    }
}

/// The steps that play a code: for each symbol, its glyph and then its tone.
pub open spec fn code_steps(code: Seq<Symbol>) -> Seq<Step>
    decreases code.len(),
{
    if code.len() == 0 {
        Seq::empty()
    } else {
        code_steps(code.drop_last()) + seq![Step::Glyph(code.last()), Step::Tone(tone_ms(code.last()))]
    }
}

/// The steps that play the code of one character: the code, then the gap
/// between characters and a line break.
pub open spec fn coded_steps(code: Seq<Symbol>) -> Seq<Step> {
    code_steps(code) + seq![Step::Pause(CHAR_GAP_MS), Step::LineBreak]
}

/// The steps that play one character of a message. A space ends the line
/// and waits for the gap between words; any other character plays the code
/// of its upper case.
pub open spec fn char_steps(c: char) -> Seq<Step> {
    if c == ' ' {
        seq![Step::LineBreak, Step::Pause(WORD_GAP_MS)]
    } else {
        coded_steps(code_for(c)->0)
    }
}

/// The steps that play a whole message, character after character.
pub open spec fn message_steps(s: Seq<char>) -> Seq<Step>
    decreases s.len(),
{
    if s.len() == 0 {
        Seq::empty()
    } else {
        message_steps(s.drop_last()) + char_steps(s.last())
    }
}

/// The symbols that a sequence of steps writes, in order: its glyph stream,
/// without line breaks, tones or pauses.
pub open spec fn glyphs(steps: Seq<Step>) -> Seq<Symbol>
    decreases steps.len(),
{
    if steps.len() == 0 {
        Seq::empty()
    } else {
        let rest = glyphs(steps.drop_last());
        match steps.last() {
            Step::Glyph(g) => rest.push(g),
            _ => rest,
        }
    }
}

/// The codes of the characters of a message, each taken in upper case, one
/// after another; a space contributes nothing.
pub open spec fn message_code(s: Seq<char>) -> Seq<Symbol>
    decreases s.len(),
{
    if s.len() == 0 {
        Seq::empty()
    } else if s.last() == ' ' {
        message_code(s.drop_last())
    } else {
        message_code(s.drop_last()) + code_for(s.last())->0
    }
}

/// The glyph stream of two runs of steps is the one of the first followed by
/// the one of the second.
pub proof fn lemma_glyphs_concat(a: Seq<Step>, b: Seq<Step>)
    ensures
        glyphs(a + b) == glyphs(a) + glyphs(b),
    decreases b.len(),
{
    if b.len() == 0 {
        assert(a + b =~= a);
        assert(glyphs(a) + glyphs(b) =~= glyphs(a));
    } else {
        lemma_glyphs_concat(a, b.drop_last());
        assert((a + b).drop_last() =~= a + b.drop_last());
        assert((a + b).last() == b.last());
        match b.last() {
            Step::Glyph(g) => {
                assert(glyphs(a) + glyphs(b.drop_last()).push(g) =~= (glyphs(a) + glyphs(
                    b.drop_last(),
                )).push(g));
            },
            _ => {},
        }
    }
}

/// Playing a code writes exactly the glyphs of that code.
pub proof fn lemma_code_steps_glyphs(code: Seq<Symbol>)
    ensures
        glyphs(code_steps(code)) == code,
    decreases code.len(),
{
    if code.len() == 0 {
        assert(glyphs(Seq::<Step>::empty()) =~= Seq::<Symbol>::empty());
    } else {
        reveal_with_fuel(glyphs, 3);
        let pair = seq![Step::Glyph(code.last()), Step::Tone(tone_ms(code.last()))];
        lemma_code_steps_glyphs(code.drop_last());
        lemma_glyphs_concat(code_steps(code.drop_last()), pair);
        assert(pair.drop_last() =~= seq![Step::Glyph(code.last())]);
        assert(pair.drop_last().drop_last() =~= Seq::<Step>::empty());
        assert(glyphs(pair) =~= seq![code.last()]);
        assert(code.drop_last() + seq![code.last()] =~= code);
    }
}

/// Playing the code of one character writes exactly the glyphs of the code.
pub proof fn lemma_coded_steps_glyphs(code: Seq<Symbol>)
    ensures
        glyphs(coded_steps(code)) == code,
{
    reveal_with_fuel(glyphs, 3);
    let tail = seq![Step::Pause(CHAR_GAP_MS), Step::LineBreak];
    lemma_code_steps_glyphs(code);
    lemma_glyphs_concat(code_steps(code), tail);
    assert(tail.drop_last() =~= seq![Step::Pause(CHAR_GAP_MS)]);
    assert(tail.drop_last().drop_last() =~= Seq::<Step>::empty());
    assert(glyphs(tail) =~= Seq::<Symbol>::empty());
    assert(code + Seq::<Symbol>::empty() =~= code);
}

/// Playing one character writes the glyphs of the code of its upper case;
/// a space writes none.
pub proof fn lemma_char_steps_glyphs(c: char)
    ensures
        glyphs(char_steps(c)) == (if c == ' ' {
            Seq::<Symbol>::empty()
        } else {
            code_for(c)->0
        }),
{
    reveal_with_fuel(glyphs, 3);
    if c == ' ' {
        let sp = seq![Step::LineBreak, Step::Pause(WORD_GAP_MS)];
        assert(sp.drop_last() =~= seq![Step::LineBreak]);
        assert(sp.drop_last().drop_last() =~= Seq::<Step>::empty());
    } else {
        lemma_coded_steps_glyphs(code_for(c)->0);
    }
}

/// Playing a message writes, as its glyph stream, exactly the codes of the
/// upper case of its characters in order, with nothing for a space.
pub proof fn lemma_glyph_stream_is_message_code(s: Seq<char>)
    requires
        all_allowed(s),
    ensures
        glyphs(message_steps(s)) == message_code(s),
    decreases s.len(),
{
    if s.len() == 0 {
        assert(glyphs(Seq::<Step>::empty()) =~= Seq::<Symbol>::empty());
    } else {
        let init = s.drop_last();
        assert(all_allowed(init)) by {
            assert forall|i: int| 0 <= i < init.len() implies allowed(#[trigger] init[i]) by {
                assert(init[i] == s[i]);
            }
        }
        lemma_glyph_stream_is_message_code(init);
        lemma_glyphs_concat(message_steps(init), char_steps(s.last()));
        lemma_char_steps_glyphs(s.last());
        if s.last() == ' ' {
            assert(message_code(init) + Seq::<Symbol>::empty() =~= message_code(init));
        }
    }
}

impl Symbol {
    pub fn tone_ms(&self) -> (r: u64)
        ensures
            r == tone_ms(*self),
    {
        match self {
            Symbol::Dot => DOT_MS,
            Symbol::Dash => DASH_MS,
        }
    }
}

/// The steps that play a code: each symbol's glyph and tone, then the gap
/// between characters and a line break.
pub fn steps_for_code(code: &Vec<Symbol>) -> (r: Vec<Step>)
    ensures
        r@ == coded_steps(code@),
{
    let mut out: Vec<Step> = Vec::new();
    let mut i: usize = 0;
    while i < code.len()
        invariant
            i <= code@.len(),
            out@ == code_steps(code@.subrange(0, i as int)),
        decreases code@.len() - i,
    {
        let s = code[i];
        out.push(Step::Glyph(s));
        out.push(Step::Tone(s.tone_ms()));
        proof {
            let next = code@.subrange(0, i + 1);
            assert(next.drop_last() =~= code@.subrange(0, i as int));
        }
        i = i + 1;
    }
    out.push(Step::Pause(CHAR_GAP_MS));
    out.push(Step::LineBreak);
    assert(code@.subrange(0, code@.len() as int) =~= code@);
    assert(out@ =~= coded_steps(code@));
    out
}

/// The steps that play one character, which must be a space or have a code
/// in either case.
pub fn steps_for_char(c: char) -> (r: Vec<Step>)
    requires
        allowed(c),
    ensures
        r@ == char_steps(c),
{
    if c == ' ' {
        let mut out: Vec<Step> = Vec::new();
        out.push(Step::LineBreak);
        out.push(Step::Pause(WORD_GAP_MS));
        assert(out@ =~= char_steps(c));
        return out;
    }
    match lookup(c) {
        Some(code) => steps_for_code(&code),
        None => Vec::new(),
    }
}

/// The steps that play a message whose characters are each a space or have a
/// code, as a validated message has.
pub fn playback_steps(msg: &str) -> (r: Vec<Step>)
    requires
        all_allowed(msg@),
    ensures
        r@ == message_steps(msg@),
{
    let n = msg.unicode_len();
    let mut out: Vec<Step> = Vec::new();
    let mut i: usize = 0;
    while i < n
        invariant
            n == msg@.len(),
            i <= n,
            all_allowed(msg@),
            out@ == message_steps(msg@.subrange(0, i as int)),
        decreases n - i,
    {
        let c = msg.get_char(i);
        let mut part = steps_for_char(c);
        out.append(&mut part);
        proof {
            let next = msg@.subrange(0, i + 1);
            assert(next.drop_last() =~= msg@.subrange(0, i as int));
        }
        i = i + 1;
    }
    assert(msg@.subrange(0, n as int) =~= msg@);
    out
}

/// Validates a message and, when it is valid, gives the steps that play it.
/// A refused message gives the error of its validation and no steps.
pub fn prepare(msg: &str) -> (r: Result<Vec<Step>, MessageError>)
    ensures
        validation(msg@) is Ok <==> r is Ok,
        r is Ok ==> r->Ok_0@ == message_steps(msg@),
        validation(msg@) is Err ==> r == Err::<Vec<Step>, MessageError>(
            validation(msg@)->Err_0,
        ),
{
    match validate(msg) {
        Ok(()) => Ok(playback_steps(msg)),
        Err(e) => Err(e),
    }
}

/// The glyph stream of a sequence of steps, as text.
pub fn glyph_stream(steps: &Vec<Step>) -> (r: Vec<char>)
    ensures
        r@ == glyphs(steps@).map_values(|g: Symbol| glyph_of(g)),
{
    let mut out: Vec<char> = Vec::new();
    let mut i: usize = 0;
    while i < steps.len()
        invariant
            i <= steps@.len(),
            out@ == glyphs(steps@.subrange(0, i as int)).map_values(|g: Symbol| glyph_of(g)),
        decreases steps@.len() - i,
    {
        let ghost before = steps@.subrange(0, i as int);
        let ghost next = steps@.subrange(0, i + 1);
        assert(next.drop_last() =~= before);
        match steps[i] {
            Step::Glyph(g) => {
                out.push(g.glyph());
                assert(out@ =~= glyphs(next).map_values(|g: Symbol| glyph_of(g)));
            },
            _ => {},
        }
        i = i + 1;
    }
    assert(steps@.subrange(0, steps@.len() as int) =~= steps@);
    out
}

} // verus!
