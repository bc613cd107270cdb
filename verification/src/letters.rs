//! The character-class selector: four flags, one per character class,
//! parsed from a compact code string.

use vstd::prelude::*;

verus! {

/// Which of the four character classes are enabled, in the fixed order
/// lowercase, uppercase, numbers, symbols.
#[derive(Copy, Clone, Debug, PartialEq, Eq, Structural)]
pub struct Letters {
    pub lowercase: bool,
    pub uppercase: bool,
    pub numbers: bool,
    pub symbols: bool,
}

impl Letters {
    /// The flag at position `i` in the fixed order
    /// lowercase, uppercase, numbers, symbols.
    pub open spec fn spec_flag(self, i: int) -> bool {
        if i == 0 {
            self.lowercase
        } else if i == 1 {
            self.uppercase
        } else if i == 2 {
            self.numbers
        } else {
            self.symbols
        }
    }

    /// At least one class is enabled.
    pub open spec fn any_enabled(self) -> bool {
        self.lowercase || self.uppercase || self.numbers || self.symbols
    }

    /// The class validator: accepts a selector iff at least one flag is true.
    pub fn any_set(&self) -> (r: bool)
        ensures
            r == self.any_enabled(),
    {
        self.lowercase || self.uppercase || self.numbers || self.symbols
    }

    /// Parses a class-selection code: a flag is set iff the code contains
    /// the class's digit (`1` lowercase, `2` uppercase, `3` numbers,
    /// `4` symbols). Other characters and duplicates are ignored; parsing
    /// never fails, an empty or garbage code yields all flags false.
    pub fn from_str(s: &str) -> (r: Letters)
        ensures
            r.lowercase == s@.contains('1'),
            r.uppercase == s@.contains('2'),
            r.numbers == s@.contains('3'),
            r.symbols == s@.contains('4'),
    {
        Letters {
            lowercase: has_char(s, '1'),
            uppercase: has_char(s, '2'),
            numbers: has_char(s, '3'),
            symbols: has_char(s, '4'),
        }
    }

    /// A cursor over the four flags in fixed order.
    pub fn iter(&self) -> (r: LettersAsIter)
        ensures
            r.letters == *self,
            r.iter == 0,
    {
        let letters = *self;
        LettersAsIter { letters, iter: 0 }
    }
}

/// Yields the four flags of a selector one by one, in the fixed order
/// lowercase, uppercase, numbers, symbols, then `None`.
pub struct LettersAsIter {
    pub letters: Letters,
    pub iter: i32,
}

impl LettersAsIter {
    /// The next flag in fixed order, or `None` once all four are spent.
    pub fn next(&mut self) -> (r: Option<bool>)
        requires
            old(self).iter < i32::MAX,
        ensures
            final(self).letters == old(self).letters,
            final(self).iter == old(self).iter + 1,
            r == (if 0 <= old(self).iter < 4 {
                Some(old(self).letters.spec_flag(old(self).iter as int))
            } else {
                None::<bool>
            }),
    {
        let result = match self.iter {
            0 => Some(self.letters.lowercase),
            1 => Some(self.letters.uppercase),
            2 => Some(self.letters.numbers),
            3 => Some(self.letters.symbols),
            _ => None,
        };
        self.iter = self.iter + 1;
        result
    }
}

/// Whether `s` contains the character `c`.
pub fn has_char(s: &str, c: char) -> (r: bool)
    ensures
        r == s@.contains(c),
{
    let n = s.unicode_len();
    let mut i: usize = 0;
    while i < n
        invariant
            i <= n,
            n == s@.len(),
            forall|j: int| 0 <= j < i ==> s@[j] != c,
        decreases n - i,
    {
        if s.get_char(i) == c {
            return true;
        }
        i += 1;
    }
    false
}

} // verus!
