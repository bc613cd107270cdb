//! The sampling population: the fixed alphabets of the four character
//! classes, concatenated in fixed order for the enabled classes.

use vstd::prelude::*;
use crate::letters::Letters;

verus! {

/// The lowercase alphabet, `a` through `z`.
pub open spec fn spec_lowercase() -> Seq<char> {
    "abcdefghijklmnopqrstuvwxyz"@
}

/// The uppercase alphabet, `A` through `Z`.
pub open spec fn spec_uppercase() -> Seq<char> {
    "ABCDEFGHIJKLMNOPQRSTUVWXYZ"@
}

/// The digit alphabet, `0` through `9`.
pub open spec fn spec_numbers() -> Seq<char> {
    "0123456789"@
}

/// The fixed symbol alphabet.
pub open spec fn spec_symbols() -> Seq<char> {
    "`~!@#$%^&*()_+-=[]\\{}|;':\",./<>?"@
}

/// The population for a selector: the alphabets of the enabled classes,
/// concatenated in the fixed order lowercase, uppercase, numbers, symbols.
pub open spec fn spec_population(l: Letters) -> Seq<char> {
    (if l.lowercase {
        spec_lowercase()
    } else {
        Seq::<char>::empty()
    }) + (if l.uppercase {
        spec_uppercase()
    } else {
        Seq::<char>::empty()
    }) + (if l.numbers {
        spec_numbers()
    } else {
        Seq::<char>::empty()
    }) + (if l.symbols {
        spec_symbols()
    } else {
        Seq::<char>::empty()
    })
}

/// The sizes of the four fixed alphabets.
pub proof fn lemma_alphabet_lens()
    ensures
        spec_lowercase().len() == 26,
        spec_uppercase().len() == 26,
        spec_numbers().len() == 10,
        spec_symbols().len() == 32,
{
    reveal_strlit("abcdefghijklmnopqrstuvwxyz");
    reveal_strlit("ABCDEFGHIJKLMNOPQRSTUVWXYZ");
    reveal_strlit("0123456789");
    reveal_strlit("`~!@#$%^&*()_+-=[]\\{}|;':\",./<>?");
}

/// The population's size is the sum of the sizes of the enabled alphabets.
pub proof fn lemma_population_len(l: Letters)
    ensures
        spec_population(l).len() == (if l.lowercase {
            26int
        } else {
            0
        }) + (if l.uppercase {
            26int
        } else {
            0
        }) + (if l.numbers {
            10int
        } else {
            0
        }) + (if l.symbols {
            32int
        } else {
            0
        }),
{
    lemma_alphabet_lens();
}

/// The population is a function of the selector alone: equal selectors
/// always yield the very same sequence.
pub proof fn lemma_population_deterministic(a: Letters, b: Letters)
    requires
        a == b,
    ensures
        spec_population(a) == spec_population(b),
{
}

/// The enabled alphabets appear as contiguous blocks in the fixed order
/// lowercase, uppercase, numbers, symbols; a disabled class contributes
/// nothing.
pub proof fn lemma_population_order(l: Letters)
    ensures
        spec_population(l) == (if l.lowercase {
            spec_lowercase()
        } else {
            Seq::<char>::empty()
        }) + (if l.uppercase {
            spec_uppercase()
        } else {
            Seq::<char>::empty()
        }) + (if l.numbers {
            spec_numbers()
        } else {
            Seq::<char>::empty()
        }) + (if l.symbols {
            spec_symbols()
        } else {
            Seq::<char>::empty()
        }),
{
}

/// A selector with at least one class enabled yields a non-empty population.
pub proof fn lemma_population_nonempty(l: Letters)
    requires
        l.any_enabled(),
    ensures
        spec_population(l).len() > 0,
{
    lemma_population_len(l);
}

/// A character is in the population iff it is in the alphabet of some
/// enabled class.
pub proof fn lemma_population_membership(l: Letters, c: char)
    ensures
        spec_population(l).contains(c) <==> ((l.lowercase && spec_lowercase().contains(c))
            || (l.uppercase && spec_uppercase().contains(c)) || (l.numbers
            && spec_numbers().contains(c)) || (l.symbols && spec_symbols().contains(c))),
{
    let low = if l.lowercase {
        spec_lowercase()
    } else {
        Seq::<char>::empty()
    };
    let up = if l.uppercase {
        spec_uppercase()
    } else {
        Seq::<char>::empty()
    };
    let num = if l.numbers {
        spec_numbers()
    } else {
        Seq::<char>::empty()
    };
    let sym = if l.symbols {
        spec_symbols()
    } else {
        Seq::<char>::empty()
    };
    lemma_concat_contains(low, up, c);
    lemma_concat_contains(low + up, num, c);
    lemma_concat_contains(low + up + num, sym, c);
}

/// Membership in a concatenation is membership in one of the parts.
proof fn lemma_concat_contains(a: Seq<char>, b: Seq<char>, c: char)
    ensures
        (a + b).contains(c) <==> a.contains(c) || b.contains(c),
{
    if a.contains(c) {
        let i = choose|i: int| 0 <= i < a.len() && a[i] == c;
        assert((a + b)[i] == c);
    }
    if b.contains(c) {
        let i = choose|i: int| 0 <= i < b.len() && b[i] == c;
        assert((a + b)[a.len() + i] == c);
    }
    if (a + b).contains(c) {
        let i = choose|i: int| 0 <= i < (a + b).len() && (a + b)[i] == c;
        if i < a.len() {
            assert(a[i] == c);
        } else {
            assert(b[i - a.len()] == c);
        }
    }
}

/// The characters of `s`, in order, as a vector.
fn str_chars(s: &str) -> (r: Vec<char>)
    ensures
        r@ == s@,
{
    let n = s.unicode_len();
    let mut r: Vec<char> = Vec::new();
    let mut i: usize = 0;
    while i < n
        invariant
            i <= n,
            n == s@.len(),
            r@ == s@.subrange(0, i as int),
        decreases n - i,
    {
        r.push(s.get_char(i));
        proof {
            assert(r@ =~= s@.subrange(0, i + 1));
        }
        i += 1;
    }
    proof {
        assert(r@ =~= s@);
    }
    r
}

/// Builds the population for a selector: the enabled alphabets concatenated
/// in the fixed order lowercase, uppercase, numbers, symbols.
pub fn build_population(l: &Letters) -> (r: Vec<char>)
    ensures
        r@ == spec_population(*l),
{
    let mut pop: Vec<char> = Vec::new();
    if l.lowercase {
        let mut v = str_chars("abcdefghijklmnopqrstuvwxyz");
        pop.append(&mut v);
    }
    if l.uppercase {
        let mut v = str_chars("ABCDEFGHIJKLMNOPQRSTUVWXYZ");
        pop.append(&mut v);
    }
    if l.numbers {
        let mut v = str_chars("0123456789");
        pop.append(&mut v);
    }
    if l.symbols {
        let mut v = str_chars("`~!@#$%^&*()_+-=[]\\{}|;':\",./<>?");
        pop.append(&mut v);
    }
    proof {
        assert(pop@ =~= spec_population(*l));
    }
    pop
}

} // verus!
