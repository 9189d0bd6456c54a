//! The category model: named, independently toggled groups of catalog
//! symbols, each with a predicate tree, a minimum-required-character count,
//! and per-symbol enable flags.
pub mod data;

use crate::chars_to_string;
use crate::code_point::{CodePointConfig, FilterConditionOp};
use vstd::prelude::*;
use vstd::string::StringExecFns;

verus! {

/// How many characters of a category's active set its preview shows at most.
pub const MAX_PREVIEW_LENGTH: usize = 20;

/// The individually enabled entries of `cps`, in order.
pub open spec fn active_code_points_of(cps: Seq<CodePointConfig>) -> Seq<CodePointConfig>
    decreases cps.len(),
{
    if cps.len() == 0 {
        Seq::empty()
    } else {
        let rest = active_code_points_of(cps.drop_last());
        if cps.last().enabled {
            rest.push(cps.last())
        } else {
            rest
        }
    }
}

/// The characters of the individually enabled entries of `cps`, in order.
pub open spec fn active_chars_of(cps: Seq<CodePointConfig>) -> Seq<char> {
    active_code_points_of(cps).map_values(|c: CodePointConfig| c.attrs.ch)
}

/// One category: a human-readable name, an enabled flag, the predicate tree
/// that selected its symbols, a minimum-required-character count, and the
/// ordered list of its symbols.
pub struct CodePointCategory {
    pub name: String,
    pub enabled: bool,
    pub filters: FilterConditionOp,
    pub min_characters: usize,
    pub code_points: Vec<CodePointConfig>,
}

impl CodePointCategory {
    /// Builds a category with no symbols yet.
    pub fn new(name: &str, enabled: bool, filters: FilterConditionOp, min_characters: usize) -> (r:
        Self)
        ensures
            r.name@ == name@,
            r.enabled == enabled,
            r.filters == filters,
            r.min_characters == min_characters,
            r.code_points@ == Seq::<CodePointConfig>::empty(),
    {
        Self { name: name.to_owned(), enabled, filters, min_characters, code_points: Vec::new() }
    }

    /// The minimum number of characters this category must contribute.
    pub fn get_min_required_chars(&self) -> (r: usize)
        ensures
            r == self.min_characters,
    {
        self.min_characters
    }

    /// Sets the minimum number of characters this category must contribute.
    /// Bounds against the configuration's target length are the caller's
    /// responsibility.
    pub fn set_min_required_chars(&mut self, min_chars: usize)
        ensures
            *final(self) == (CodePointCategory { min_characters: min_chars, ..*old(self) }),
    {
        self.min_characters = min_chars;
    }

    /// A copy of all the category's symbol entries.
    pub fn get_code_points(&self) -> (r: Vec<CodePointConfig>)
        ensures
            r@ == self.code_points@,
    {
        let mut r: Vec<CodePointConfig> = Vec::new();
        let mut i: usize = 0;
        while i < self.code_points.len()
            invariant
                0 <= i <= self.code_points@.len(),
                r@ == self.code_points@.subrange(0, i as int),
            decreases self.code_points@.len() - i,
        {
            r.push(self.code_points[i]);
            proof {
                assert(self.code_points@.subrange(0, i + 1 as int) =~= self.code_points@.subrange(
                    0,
                    i as int,
                ).push(self.code_points@[i as int]));
            }
            i += 1;
        }
        proof {
            assert(self.code_points@.subrange(0, self.code_points@.len() as int)
                =~= self.code_points@);
        }
        r
    }

    /// The individually enabled symbol entries, in order.
    pub fn get_active_code_points(&self) -> (r: Vec<CodePointConfig>)
        ensures
            r@ == active_code_points_of(self.code_points@),
    {
        let mut r: Vec<CodePointConfig> = Vec::new();
        let mut i: usize = 0;
        while i < self.code_points.len()
            invariant
                0 <= i <= self.code_points@.len(),
                r@ == active_code_points_of(self.code_points@.subrange(0, i as int)),
            decreases self.code_points@.len() - i,
        {
            let cpc = self.code_points[i];
            if cpc.is_enabled() {
                r.push(cpc);
            }
            proof {
                assert(self.code_points@.subrange(0, i + 1 as int).drop_last()
                    =~= self.code_points@.subrange(0, i as int));
            }
            i += 1;
        }
        proof {
            assert(self.code_points@.subrange(0, self.code_points@.len() as int)
                =~= self.code_points@);
        }
        r
    }

    /// How many symbols the category holds.
    pub fn get_code_point_count(&self) -> (r: usize)
        ensures
            r == self.code_points@.len(),
    {
        self.code_points.len()
    }

    /// How many of the category's symbols are individually enabled.
    pub fn get_active_code_point_count(&self) -> (r: usize)
        ensures
            r == active_code_points_of(self.code_points@).len(),
    {
        self.get_active_code_points().len()
    }

    /// The characters of the individually enabled symbols, in order.
    pub fn get_active_chars(&self) -> (r: Vec<char>)
        ensures
            r@ == active_chars_of(self.code_points@),
    {
        let active = self.get_active_code_points();
        let mut r: Vec<char> = Vec::new();
        let mut i: usize = 0;
        while i < active.len()
            invariant
                0 <= i <= active@.len(),
                active@ == active_code_points_of(self.code_points@),
                r@ == active@.subrange(0, i as int).map_values(|c: CodePointConfig| c.attrs.ch),
            decreases active@.len() - i,
        {
            r.push(active[i].get_char());
            proof {
                assert(active@.subrange(0, i + 1 as int) =~= active@.subrange(0, i as int).push(
                    active@[i as int],
                ));
                assert(active@.subrange(0, i + 1 as int).map_values(
                    |c: CodePointConfig| c.attrs.ch,
                ) =~= active@.subrange(0, i as int).map_values(|c: CodePointConfig| c.attrs.ch).push(
                    active@[i as int].attrs.ch,
                ));
            }
            i += 1;
        }
        proof {
            assert(active@.subrange(0, active@.len() as int) =~= active@);
        }
        r
    }

    /// Whether the category as a whole is enabled.
    pub fn is_enabled(&self) -> (r: bool)
        ensures
            r == self.enabled,
    {
        self.enabled
    }

    /// Flips the category's enabled flag.
    pub fn toggle_enabled(&mut self)
        ensures
            *final(self) == (CodePointCategory { enabled: !old(self).enabled, ..*old(self) }),
    {
        self.enabled = !self.enabled;
    }

    /// A short preview of the category's active character set: the whole set
    /// when it fits, else its first characters followed by an ellipsis mark.
    pub fn get_hint(&self) -> (r: String)
        ensures
            ({
                let chars = active_chars_of(self.code_points@);
                if chars.len() <= MAX_PREVIEW_LENGTH {
                    r@ == chars
                } else {
                    r@ == chars.subrange(0, MAX_PREVIEW_LENGTH as int) + "..."@
                }
            }),
    {
        let chars = self.get_active_chars();
        if chars.len() <= MAX_PREVIEW_LENGTH {
            chars_to_string(&chars)
        } else {
            let mut prefix: Vec<char> = Vec::new();
            let mut i: usize = 0;
            while i < MAX_PREVIEW_LENGTH
                invariant
                    0 <= i <= MAX_PREVIEW_LENGTH,
                    chars@.len() > MAX_PREVIEW_LENGTH,
                    chars@ == active_chars_of(self.code_points@),
                    prefix@ == chars@.subrange(0, i as int),
                decreases MAX_PREVIEW_LENGTH - i,
            {
                prefix.push(chars[i]);
                proof {
                    assert(chars@.subrange(0, i + 1 as int) =~= chars@.subrange(0, i as int).push(
                        chars@[i as int],
                    ));
                }
                i += 1;
            }
            let mut s = chars_to_string(&prefix);
            s.append("...");
            s
        }
    }
}

} // verus!
