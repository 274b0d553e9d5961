//! Word and paragraph boundary detection.

use vstd::prelude::*;
use crate::event::{boundary, KeyEventType};

verus! {

/// One more, unless the value already stands at the largest `u32`.
pub open spec fn inc(x: u32) -> u32 {
    if x < u32::MAX {
        (x + 1) as u32
    } else {
        x
    }
}

pub fn saturating_inc(x: u32) -> (r: u32)
    ensures
        r == inc(x),
{
    if x < u32::MAX {
        x + 1
    } else {
        x
    }
}

/// A counter with every total at zero.
pub open spec fn fresh() -> KeystrokeCounter {
    KeystrokeCounter {
        pending_chars: 0,
        total_chars: 0,
        total_words: 0,
        total_paragraphs: 0,
        total_backspaces: 0,
    }
}

/// Running totals over a stream of classified key presses.
#[derive(Clone, Copy)]
pub struct KeystrokeCounter {
    /// Characters typed since the last word boundary.
    pub pending_chars: u32,
    /// Characters, boundaries included.
    pub total_chars: u32,
    /// Completed words.
    pub total_words: u32,
    /// Enter presses.
    pub total_paragraphs: u32,
    /// Backspace presses.
    pub total_backspaces: u32,
}

impl KeystrokeCounter {
    /// The counter after one key press of kind `kind`.
    pub open spec fn step(self, kind: KeyEventType) -> KeystrokeCounter {
        match kind {
            KeyEventType::Character => KeystrokeCounter {
                pending_chars: inc(self.pending_chars),
                total_chars: inc(self.total_chars),
                ..self
            },
            KeyEventType::Space | KeyEventType::Tab | KeyEventType::Enter => KeystrokeCounter {
                pending_chars: 0,
                total_chars: inc(self.total_chars),
                total_words: if self.pending_chars > 0 {
                    inc(self.total_words)
                } else {
                    self.total_words
                },
                total_paragraphs: if kind == KeyEventType::Enter {
                    inc(self.total_paragraphs)
                } else {
                    self.total_paragraphs
                },
                ..self
            },
            KeyEventType::Backspace => KeystrokeCounter {
                pending_chars: if self.pending_chars > 0 {
                    (self.pending_chars - 1) as u32
                } else {
                    0
                },
                total_backspaces: inc(self.total_backspaces),
                ..self
            },
            KeyEventType::Other => self,
        }
    }

    /// The counter after the key presses of `kinds`, in order.
    pub open spec fn run(self, kinds: Seq<KeyEventType>) -> KeystrokeCounter
        decreases kinds.len(),
    {
        if kinds.len() == 0 {
            self
        } else {
            self.run(kinds.drop_last()).step(kinds.last())
        }
    }

    pub fn new() -> (r: KeystrokeCounter)
        ensures
            r == fresh(),
    {
        KeystrokeCounter {
            pending_chars: 0,
            total_chars: 0,
            total_words: 0,
            total_paragraphs: 0,
            total_backspaces: 0,
        }
    }

    /// Counts one key press.
    pub fn process(&mut self, event_type: KeyEventType)
        ensures
            *final(self) == old(self).step(event_type),
            event_type == KeyEventType::Backspace && old(self).pending_chars == 0 ==> {
                &&& final(self).pending_chars == 0
                &&& final(self).total_backspaces == inc(old(self).total_backspaces)
            },
    {
        match event_type {
            KeyEventType::Character => {
                self.pending_chars = saturating_inc(self.pending_chars);
                self.total_chars = saturating_inc(self.total_chars);
            },
            KeyEventType::Space | KeyEventType::Tab | KeyEventType::Enter => {
                self.total_chars = saturating_inc(self.total_chars);
                if event_type == KeyEventType::Enter {
                    self.total_paragraphs = saturating_inc(self.total_paragraphs);
                }
                if self.pending_chars > 0 {
                    self.total_words = saturating_inc(self.total_words);
                    self.pending_chars = 0;
                }
            },
            KeyEventType::Backspace => {
                self.total_backspaces = saturating_inc(self.total_backspaces);
                if self.pending_chars > 0 {
                    self.pending_chars = self.pending_chars - 1;
                }
            },
            KeyEventType::Other => {},
        }
    }

    /// Counts one key press and returns how many characters and words it
    /// added to the totals.
    pub fn process_counted(&mut self, event_type: KeyEventType) -> (r: (u32, u32))
        ensures
            *final(self) == old(self).step(event_type),
            r.0 == final(self).total_chars - old(self).total_chars,
            r.1 == final(self).total_words - old(self).total_words,
    {
        let chars_before = self.total_chars;
        let words_before = self.total_words;
        proof {
            lemma_totals_never_decrease(*self, event_type);
        }
        self.process(event_type);
        (self.total_chars - chars_before, self.total_words - words_before)
    }

    /// Clears every counter.
    pub fn reset(&mut self)
        ensures
            *final(self) == fresh(),
    {
        self.pending_chars = 0;
        self.total_chars = 0;
        self.total_words = 0;
        self.total_paragraphs = 0;
        self.total_backspaces = 0;
    }

    /// The totals as (characters, words, paragraphs, backspaces).
    pub fn stats(&self) -> (r: (u32, u32, u32, u32))
        ensures
            r == (self.total_chars, self.total_words, self.total_paragraphs, self.total_backspaces),
    {
        (self.total_chars, self.total_words, self.total_paragraphs, self.total_backspaces)
    }
}

impl Default for KeystrokeCounter {
    fn default() -> (r: KeystrokeCounter)
        ensures
            r == fresh(),
    {
        KeystrokeCounter::new()
    }
}

/// No key press lowers a total: the counts of a record only grow while its
/// minute lasts.
pub proof fn lemma_totals_never_decrease(c: KeystrokeCounter, kind: KeyEventType)
    ensures
        c.step(kind).total_chars >= c.total_chars,
        c.step(kind).total_words >= c.total_words,
        c.step(kind).total_paragraphs >= c.total_paragraphs,
        c.step(kind).total_backspaces >= c.total_backspaces,
{
}

/// `n` printable characters in a row.
pub open spec fn characters(n: nat) -> Seq<KeyEventType> {
    Seq::new(n, |i: int| KeyEventType::Character)
}

/// Typing `n` characters adds `n` to the character total and to the pending
/// characters, as long as neither reaches the largest `u32`.
pub proof fn lemma_characters(c: KeystrokeCounter, n: nat)
    requires
        c.total_chars + n <= u32::MAX,
        c.pending_chars + n <= u32::MAX,
    ensures
        c.run(characters(n)).total_chars == c.total_chars + n,
        c.run(characters(n)).pending_chars == c.pending_chars + n,
        c.run(characters(n)).total_words == c.total_words,
    decreases n,
{
    if n > 0 {
        assert(characters(n).drop_last() =~= characters((n - 1) as nat));
        lemma_characters(c, (n - 1) as nat);
    }
}

/// A run of `n >= 1` characters closed by a space, tab or enter counts
/// `n + 1` characters and exactly one more word, and leaves nothing pending.
pub proof fn lemma_word_completed(c: KeystrokeCounter, n: nat, b: KeyEventType)
    requires
        n >= 1,
        boundary(b),
        c.total_chars + n + 1 <= u32::MAX,
        c.pending_chars + n <= u32::MAX,
        c.total_words < u32::MAX,
    ensures
        c.run(characters(n).push(b)).total_chars == c.total_chars + n + 1,
        c.run(characters(n).push(b)).total_words == c.total_words + 1,
        c.run(characters(n).push(b)).pending_chars == 0,
{
    let s = characters(n).push(b);
    assert(s.drop_last() =~= characters(n));
    lemma_characters(c, n);
}

/// From a fresh counter: `n >= 1` characters and one boundary give
/// `n + 1` characters and one word.
pub proof fn lemma_fresh_word(n: nat, b: KeyEventType)
    requires
        1 <= n < u32::MAX,
        boundary(b),
    ensures
        fresh().run(characters(n).push(b)).total_chars == n + 1,
        fresh().run(characters(n).push(b)).total_words == 1,
{
    lemma_word_completed(fresh(), n, b);
}

/// A backspace with nothing pending keeps nothing pending and still counts.
pub proof fn lemma_backspace_at_zero(c: KeystrokeCounter)
    requires
        c.pending_chars == 0,
    ensures
        c.step(KeyEventType::Backspace).pending_chars == 0,
        c.step(KeyEventType::Backspace).total_backspaces == inc(c.total_backspaces),
{
}

} // verus!
