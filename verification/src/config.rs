//! The configuration: a target password length and the list of categories,
//! with the password generator that draws from the active categories.
use crate::category::data::{generate_code_point_categories, is_default_category_list};
use crate::category::{active_chars_of, active_code_points_of, CodePointCategory};
use crate::props::CodePointAttrs;
use crate::{
    chars_to_string, count_in_pool, generate_random_chars_from_char_vec, generate_rng,
    lemma_count_in_pool_append, lemma_count_in_pool_full, lemma_count_in_pool_permutation,
    shuffle_chars,
};
use vstd::prelude::*;

verus! {

/// A configuration rejected before generation.
#[derive(Clone, Copy, Debug, PartialEq, Eq, Structural)]
pub enum ConfigError {
    /// The active categories' minimum-required counts sum to more than the
    /// target password length.
    MinimumsExceedLength,
    /// The target length is positive but no active category offers a
    /// character to draw.
    NoActiveCharacters,
}

/// Whether a category takes part in generation: enabled, with at least one
/// individually enabled symbol.
pub open spec fn category_is_active(cat: CodePointCategory) -> bool {
    cat.enabled && active_code_points_of(cat.code_points@).len() > 0
}

/// The sum of the minimum-required counts of the active categories.
pub open spec fn total_min_of_active(cats: Seq<CodePointCategory>) -> nat
    decreases cats.len(),
{
    if cats.len() == 0 {
        0
    } else {
        total_min_of_active(cats.drop_last()) + if category_is_active(cats.last()) {
            cats.last().min_characters as nat
        } else {
            0
        }
    }
}

/// The concatenation of the active categories' active character sets, in
/// category order. A category contributes once per occurrence of its
/// characters, so richer categories weigh more when filling.
pub open spec fn active_pool(cats: Seq<CodePointCategory>) -> Seq<char>
    decreases cats.len(),
{
    if cats.len() == 0 {
        Seq::empty()
    } else {
        active_pool(cats.drop_last()) + if category_is_active(cats.last()) {
            active_chars_of(cats.last().code_points@)
        } else {
            Seq::empty()
        }
    }
}

/// The total minimum over a prefix never exceeds the total over the whole
/// list.
pub proof fn lemma_total_min_prefix_le(cats: Seq<CodePointCategory>, i: int)
    requires
        0 <= i <= cats.len(),
    ensures
        total_min_of_active(cats.subrange(0, i)) <= total_min_of_active(cats),
    decreases cats.len() - i,
{
    if i == cats.len() {
        assert(cats.subrange(0, i) =~= cats);
    } else {
        lemma_total_min_prefix_le(cats, i + 1);
        let p = cats.subrange(0, i + 1);
        assert(p.drop_last() =~= cats.subrange(0, i));
        assert(p.last() == cats[i]);
    }
}

/// The configuration: the target password length and the categories, owned
/// exclusively.
pub struct Config {
    pub password_length: usize,
    pub categories: Vec<CodePointCategory>,
}

impl Config {
    /// Builds the default configuration over the given attribute store: the
    /// default categories, each enabled with minimum 1, and a target length
    /// of 128.
    pub fn new(store: &Vec<CodePointAttrs>) -> (r: Self)
        ensures
            r.password_length == 128,
            is_default_category_list(r.categories@, store@),
    {
        Config { password_length: 128, categories: generate_code_point_categories(store) }
    }

    /// All categories, in order.
    pub fn get_all_categories(&self) -> (r: &Vec<CodePointCategory>)
        ensures
            r@ == self.categories@,
    {
        &self.categories
    }

    /// The target password length.
    pub fn get_password_length(&self) -> (r: usize)
        ensures
            r == self.password_length,
    {
        self.password_length
    }

    /// Sets the target password length. Bounds against the categories'
    /// minimums are the caller's responsibility.
    pub fn set_password_length(&mut self, length: usize)
        ensures
            final(self).password_length == length,
            final(self).categories@ == old(self).categories@,
    {
        self.password_length = length;
    }

    /// The sum of the minimum-required counts of the active categories, for
    /// bounds validation before a mutation.
    pub fn get_min_required_chars_for_active_categories(&self) -> (r: usize)
        requires
            total_min_of_active(self.categories@) <= usize::MAX,
        ensures
            r == total_min_of_active(self.categories@),
    {
        let mut acc: usize = 0;
        let mut i: usize = 0;
        while i < self.categories.len()
            invariant
                0 <= i <= self.categories@.len(),
                acc == total_min_of_active(self.categories@.subrange(0, i as int)),
                total_min_of_active(self.categories@) <= usize::MAX,
            decreases self.categories@.len() - i,
        {
            let cat = &self.categories[i];
            proof {
                assert(self.categories@.subrange(0, i + 1 as int).drop_last()
                    =~= self.categories@.subrange(0, i as int));
                assert(self.categories@.subrange(0, i + 1 as int).last()
                    == self.categories@[i as int]);
                lemma_total_min_prefix_le(self.categories@, i + 1 as int);
            }
            if cat.is_enabled() && cat.get_active_code_point_count() > 0 {
                acc = acc + cat.get_min_required_chars();
            }
            i += 1;
        }
        proof {
            assert(self.categories@.subrange(0, self.categories@.len() as int)
                =~= self.categories@);
        }
        acc
    }

    /// The concatenation of the active categories' active character sets.
    fn get_active_chars_for_active_categories(&self) -> (r: Vec<char>)
        ensures
            r@ == active_pool(self.categories@),
    {
        let mut r: Vec<char> = Vec::new();
        let mut i: usize = 0;
        while i < self.categories.len()
            invariant
                0 <= i <= self.categories@.len(),
                r@ == active_pool(self.categories@.subrange(0, i as int)),
            decreases self.categories@.len() - i,
        {
            let cat = &self.categories[i];
            proof {
                assert(self.categories@.subrange(0, i + 1 as int).drop_last()
                    =~= self.categories@.subrange(0, i as int));
                assert(self.categories@.subrange(0, i + 1 as int).last()
                    == self.categories@[i as int]);
            }
            if cat.is_enabled() && cat.get_active_code_point_count() > 0 {
                let mut chars = cat.get_active_chars();
                r.append(&mut chars);
            } else {
                proof {
                    assert(r@ + Seq::<char>::empty() =~= r@);
                }
            }
            i += 1;
        }
        proof {
            assert(self.categories@.subrange(0, self.categories@.len() as int)
                =~= self.categories@);
        }
        r
    }

    /// Generates a password of exactly the target length. Each active
    /// category first contributes its minimum-required number of characters,
    /// drawn uniformly with replacement from its own active set; the rest is
    /// drawn uniformly from the combined pool of all active sets; the whole
    /// sequence is then shuffled so that the guaranteed characters are not
    /// positionally predictable. A configuration whose active minimums
    /// exceed the target length, or that offers no character for a positive
    /// target, is rejected with no password.
    #[verifier::loop_isolation(false)]
    pub fn generate_password(&self) -> (r: Result<String, ConfigError>)
        ensures
            ({
                let cats = self.categories@;
                let total = total_min_of_active(cats);
                let pool = active_pool(cats);
                &&& (r == Result::<String, ConfigError>::Err(ConfigError::MinimumsExceedLength)
                    <==> total > self.password_length)
                &&& (r == Result::<String, ConfigError>::Err(ConfigError::NoActiveCharacters)
                    <==> (total <= self.password_length && pool.len() == 0
                        && self.password_length > 0))
                &&& (r matches Result::Ok(s) ==> {
                    &&& s@.len() == self.password_length
                    &&& forall|i: int| 0 <= i < s@.len() ==> pool.contains(#[trigger] s@[i])
                    &&& forall|k: int|
                        0 <= k < cats.len() && category_is_active(#[trigger] cats[k])
                            ==> count_in_pool(s@, active_chars_of(cats[k].code_points@))
                            >= cats[k].min_characters
                })
            }),
    {
        let ghost cats = self.categories@;
        let mut rng = generate_rng();
        let mut total: usize = 0;
        let mut i: usize = 0;
        while i < self.categories.len()
            invariant
                0 <= i <= cats.len(),
                total == total_min_of_active(cats.subrange(0, i as int)),
                total <= self.password_length,
            decreases cats.len() - i,
        {
            let cat = &self.categories[i];
            proof {
                assert(cats.subrange(0, i + 1 as int).drop_last() =~= cats.subrange(0, i as int));
                assert(cats.subrange(0, i + 1 as int).last() == cats[i as int]);
            }
            if cat.is_enabled() && cat.get_active_code_point_count() > 0 {
                let m = cat.get_min_required_chars();
                if m > self.password_length - total {
                    proof {
                        lemma_total_min_prefix_le(cats, i + 1 as int);
                    }
                    return Err(ConfigError::MinimumsExceedLength);
                }
                total = total + m;
            }
            i += 1;
        }
        proof {
            assert(cats.subrange(0, cats.len() as int) =~= cats);
        }
        let pool = self.get_active_chars_for_active_categories();
        if pool.len() == 0 && self.password_length > 0 {
            return Err(ConfigError::NoActiveCharacters);
        }
        let mut result: Vec<char> = Vec::new();
        let mut i: usize = 0;
        while i < self.categories.len()
            invariant
                0 <= i <= cats.len(),
                result@.len() == total_min_of_active(cats.subrange(0, i as int)),
                forall|j: int| 0 <= j < result@.len() ==> active_pool(cats).contains(
                    #[trigger] result@[j],
                ),
                forall|k: int|
                    0 <= k < i && category_is_active(#[trigger] cats[k]) ==> count_in_pool(
                        result@,
                        active_chars_of(cats[k].code_points@),
                    ) >= cats[k].min_characters,
            decreases cats.len() - i,
        {
            let cat = &self.categories[i];
            let ghost old_result = result@;
            proof {
                assert(cats.subrange(0, i + 1 as int).drop_last() =~= cats.subrange(0, i as int));
                assert(cats.subrange(0, i + 1 as int).last() == cats[i as int]);
            }
            if cat.is_enabled() && cat.get_active_code_point_count() > 0 {
                let chars = cat.get_active_chars();
                let m = cat.get_min_required_chars();
                let mut chunk = generate_random_chars_from_char_vec(chars, m, &mut rng);
                let ghost gchunk = chunk@;
                result.append(&mut chunk);
                proof {
                    let set_i = active_chars_of(cats[i as int].code_points@);
                    lemma_active_chars_in_pool(cats, i as int);
                    assert forall|k: int|
                        0 <= k < i + 1 && category_is_active(#[trigger] cats[k])
                            implies count_in_pool(
                        result@,
                        active_chars_of(cats[k].code_points@),
                    ) >= cats[k].min_characters by {
                        let set_k = active_chars_of(cats[k].code_points@);
                        lemma_count_in_pool_append(old_result, gchunk, set_k);
                        if k == i {
                            lemma_count_in_pool_full(gchunk, set_i);
                        }
                    }
                }
            }
            i += 1;
        }
        proof {
            assert(cats.subrange(0, cats.len() as int) =~= cats);
        }
        let remaining = self.password_length - total;
        if remaining > 0 {
            let ghost old_result = result@;
            let mut filler = generate_random_chars_from_char_vec(pool, remaining, &mut rng);
            let ghost gfiller = filler@;
            result.append(&mut filler);
            proof {
                assert forall|k: int|
                    0 <= k < cats.len() && category_is_active(#[trigger] cats[k])
                        implies count_in_pool(
                    result@,
                    active_chars_of(cats[k].code_points@),
                ) >= cats[k].min_characters by {
                    lemma_count_in_pool_append(
                        old_result,
                        gfiller,
                        active_chars_of(cats[k].code_points@),
                    );
                }
            }
        }
        let ghost before_shuffle = result@;
        shuffle_chars(&mut rng, &mut result);
        proof {
            broadcast use vstd::seq_lib::group_to_multiset_ensures;

            assert(result@.to_multiset().len() == result@.len());
            assert(before_shuffle.to_multiset().len() == before_shuffle.len());
            lemma_permutation_preserves_membership(before_shuffle, result@, active_pool(cats));
            assert forall|k: int|
                0 <= k < cats.len() && category_is_active(#[trigger] cats[k])
                    implies count_in_pool(
                result@,
                active_chars_of(cats[k].code_points@),
            ) >= cats[k].min_characters by {
                lemma_count_in_pool_permutation(
                    before_shuffle,
                    result@,
                    active_chars_of(cats[k].code_points@),
                );
            }
        }
        let s = chars_to_string(&result);
        Ok(s)
    }
}

/// Every character of an active category's active set occurs in the combined
/// pool of the active categories.
pub proof fn lemma_active_chars_in_pool(cats: Seq<CodePointCategory>, k: int)
    requires
        0 <= k < cats.len(),
        category_is_active(cats[k]),
    ensures
        forall|c: char|
            active_chars_of(cats[k].code_points@).contains(c) ==> #[trigger] active_pool(
                cats,
            ).contains(c),
    decreases cats.len(),
{
    let chars = active_chars_of(cats[k].code_points@);
    if k == cats.len() - 1 {
        assert forall|c: char| chars.contains(c) implies #[trigger] active_pool(cats).contains(
            c,
        ) by {
            let j = choose|j: int| 0 <= j < chars.len() && chars[j] == c;
            assert(active_pool(cats)[active_pool(cats.drop_last()).len() + j] == c);
        }
    } else {
        lemma_active_chars_in_pool(cats.drop_last(), k);
        assert(cats.drop_last()[k] == cats[k]);
        assert forall|c: char| chars.contains(c) implies #[trigger] active_pool(cats).contains(
            c,
        ) by {
            let sub = active_pool(cats.drop_last());
            assert(sub.contains(c));
            let j = choose|j: int| 0 <= j < sub.len() && sub[j] == c;
            assert(active_pool(cats)[j] == c);
        }
    }
}

/// A permutation keeps every character inside the pool its source drew from.
pub proof fn lemma_permutation_preserves_membership(a: Seq<char>, b: Seq<char>, pool: Seq<char>)
    requires
        a.to_multiset() == b.to_multiset(),
        forall|i: int| 0 <= i < a.len() ==> pool.contains(#[trigger] a[i]),
    ensures
        forall|i: int| 0 <= i < b.len() ==> pool.contains(#[trigger] b[i]),
{
    broadcast use vstd::seq_lib::group_to_multiset_ensures;

    assert forall|i: int| 0 <= i < b.len() implies pool.contains(#[trigger] b[i]) by {
        assert(b.contains(b[i]));
        assert(a.to_multiset().count(b[i]) > 0);
        assert(a.contains(b[i]));
        let j = choose|j: int| 0 <= j < a.len() && a[j] == b[i];
        assert(pool.contains(a[j]));
    }
}

} // verus!
