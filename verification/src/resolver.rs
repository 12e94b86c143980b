//! The overload resolver: assigns each method of an overload group —
//! all methods of one class sharing one declared name — a unique
//! host-visible binding identifier.
//!
//! A lone method keeps its declared name. In a group, the *base*
//! overload is the member with the fewest parameters (first in
//! declaration order on a tie) and keeps the declared name; every
//! other member gets the suffix `_with_<added>` where `<added>` joins,
//! with `_and_`, the parameter names it adds relative to the base's
//! parameter-name set, in declaration order. A member that adds no new
//! name falls back to `_<k>` where `k` is its position within the
//! group, counted from zero in declaration order.

use vstd::prelude::*;

verus! {

/// What the resolver reads of one method: its declared name and its
/// parameter names in order.
#[derive(Debug, PartialEq, Eq)]
pub struct MethodSig {
    pub name: String,
    pub param_names: Vec<String>,
}

/// Spec mirror of [`MethodSig`].
#[verifier::ext_equal]
pub struct MethodSigView {
    pub name: Seq<char>,
    pub param_names: Seq<Seq<char>>,
}

pub open spec fn strings_view(ss: Seq<String>) -> Seq<Seq<char>> {
    ss.map_values(|s: String| s@)
}

impl View for MethodSig {
    type V = MethodSigView;

    open spec fn view(&self) -> MethodSigView {
        MethodSigView { name: self.name@, param_names: strings_view(self.param_names@) }
    }
}

pub open spec fn sigs_view(ms: Seq<MethodSig>) -> Seq<MethodSigView> {
    ms.map_values(|m: MethodSig| m@)
}

/// How many methods of the list bear the given declared name.
pub open spec fn spec_count_named(ms: Seq<MethodSigView>, name: Seq<char>) -> nat
    decreases ms.len(),
{
    if ms.len() == 0 {
        0
    } else {
        spec_count_named(ms.drop_last(), name) + if ms.last().name == name {
            1nat
        } else {
            0nat
        }
    }
}

/// The index of the base overload for `name`: the first method with
/// that name whose parameter count is minimal over the whole group;
/// `-1` when no method bears the name.
pub open spec fn spec_base_index(ms: Seq<MethodSigView>, name: Seq<char>) -> int
    decreases ms.len(),
{
    if ms.len() == 0 {
        -1
    } else {
        let b = spec_base_index(ms.drop_last(), name);
        if ms.last().name == name {
            if b == -1 {
                ms.len() - 1
            } else if ms.last().param_names.len() < ms[b].param_names.len() {
                ms.len() - 1
            } else {
                b
            }
        } else {
            b
        }
    }
}

/// The base index is in range and bears the name exactly when the name
/// occurs at all.
pub proof fn lemma_base_index_props(ms: Seq<MethodSigView>, name: Seq<char>)
    ensures
        (spec_base_index(ms, name) == -1) <==> (spec_count_named(ms, name) == 0),
        spec_base_index(ms, name) != -1 ==> 0 <= spec_base_index(ms, name) < ms.len()
            && ms[spec_base_index(ms, name)].name == name,
        spec_count_named(ms, name) == 0 ==> forall|j: int|
            0 <= j < ms.len() ==> (#[trigger] ms[j]).name != name,
    decreases ms.len(),
{
    if ms.len() > 0 {
        lemma_base_index_props(ms.drop_last(), name);
        assert(forall|j: int|
            0 <= j < ms.len() - 1 ==> #[trigger] ms[j] == ms.drop_last()[j]);
    }
}

/// The base overload is the group member with the fewest parameters,
/// and the first such member in declaration order on a tie.
pub proof fn lemma_base_index_first_minimal(ms: Seq<MethodSigView>, name: Seq<char>)
    requires
        spec_count_named(ms, name) > 0,
    ensures
        ({
            let b = spec_base_index(ms, name);
            &&& 0 <= b < ms.len()
            &&& ms[b].name == name
            &&& forall|j: int|
                0 <= j < ms.len() && (#[trigger] ms[j]).name == name
                    ==> ms[b].param_names.len() <= ms[j].param_names.len()
            &&& forall|j: int|
                0 <= j < b && (#[trigger] ms[j]).name == name
                    ==> ms[b].param_names.len() < ms[j].param_names.len()
        }),
    decreases ms.len(),
{
    lemma_base_index_props(ms, name);
    if ms.len() > 0 {
        let d = ms.drop_last();
        lemma_base_index_props(d, name);
        assert(forall|j: int| 0 <= j < ms.len() - 1 ==> #[trigger] ms[j] == d[j]);
        if spec_count_named(d, name) > 0 {
            lemma_base_index_first_minimal(d, name);
            let bp = spec_base_index(d, name);
            if ms.last().name == name && ms.last().param_names.len()
                < ms[bp].param_names.len() {
                assert(spec_base_index(ms, name) == ms.len() - 1);
            } else {
                assert(spec_base_index(ms, name) == bp);
            }
        } else {
            if ms.last().name == name {
                assert(spec_base_index(ms, name) == ms.len() - 1);
            }
        }
    }
}

/// The parameter names of `mine` that do not occur in `base`, in
/// order, duplicates kept.
pub open spec fn spec_added_names(mine: Seq<Seq<char>>, base: Seq<Seq<char>>) -> Seq<Seq<char>>
    decreases mine.len(),
{
    if mine.len() == 0 {
        Seq::empty()
    } else {
        let rest = spec_added_names(mine.drop_last(), base);
        if base.contains(mine.last()) {
            rest
        } else {
            rest.push(mine.last())
        }
    }
}

/// The names joined with `_and_`.
pub open spec fn spec_join_and(names: Seq<Seq<char>>) -> Seq<char>
    recommends
        names.len() >= 1,
    decreases names.len(),
{
    if names.len() <= 1 {
        if names.len() == 1 {
            names[0]
        } else {
            Seq::empty()
        }
    } else {
        spec_join_and(names.drop_last()) + "_and_"@ + names.last()
    }
}

/// The digit character for one decimal digit.
pub open spec fn spec_digit(d: nat) -> char
    recommends
        d < 10,
{
    if d == 0 {
        '0'
    } else if d == 1 {
        '1'
    } else if d == 2 {
        '2'
    } else if d == 3 {
        '3'
    } else if d == 4 {
        '4'
    } else if d == 5 {
        '5'
    } else if d == 6 {
        '6'
    } else if d == 7 {
        '7'
    } else if d == 8 {
        '8'
    } else {
        '9'
    }
}

/// The decimal rendering of a number, most significant digit first,
/// without leading zeros (`0` renders as `"0"`).
pub open spec fn spec_dec(n: nat) -> Seq<char>
    decreases n,
{
    if n < 10 {
        seq![spec_digit(n)]
    } else {
        spec_dec(n / 10).push(spec_digit(n % 10))
    }
}

/// The resolved binding identifier for the method at index `i` of the
/// class's method list.
pub open spec fn spec_resolved_name(ms: Seq<MethodSigView>, i: int) -> Seq<char>
    recommends
        0 <= i < ms.len(),
{
    let name = ms[i].name;
    if spec_count_named(ms, name) <= 1 {
        name
    } else {
        let b = spec_base_index(ms, name);
        if i == b {
            name
        } else {
            let added = spec_added_names(ms[i].param_names, ms[b].param_names);
            if added.len() > 0 {
                name + "_with_"@ + spec_join_and(added)
            } else {
                name + "_"@ + spec_dec(spec_count_named(ms.take(i), name))
            }
        }
    }
}

/// A one-character string slice for each decimal digit.
fn digit_str(d: usize) -> (r: &'static str)
    requires
        d < 10,
    ensures
        r@ == seq![spec_digit(d as nat)],
{
    let r: &'static str = match d {
        0 => "0",
        1 => "1",
        2 => "2",
        3 => "3",
        4 => "4",
        5 => "5",
        6 => "6",
        7 => "7",
        8 => "8",
        _ => "9",
    };
    proof {
        reveal_strlit("0");
        reveal_strlit("1");
        reveal_strlit("2");
        reveal_strlit("3");
        reveal_strlit("4");
        reveal_strlit("5");
        reveal_strlit("6");
        reveal_strlit("7");
        reveal_strlit("8");
        reveal_strlit("9");
        assert(r@ =~= seq![spec_digit(d as nat)]);
    }
    r
}

/// Renders a number in decimal.
fn dec_string(n: usize) -> (s: String)
    ensures
        s@ == spec_dec(n as nat),
    decreases n,
{
    if n < 10 {
        String::from_str(digit_str(n))
    } else {
        let mut s = dec_string(n / 10);
        let d = digit_str(n % 10);
        s.append(d);
        proof {
            assert((n / 10) as nat == (n as nat) / 10);
            assert((n % 10) as nat == (n as nat) % 10);
            assert(s@ =~= spec_dec((n as nat) / 10).push(spec_digit((n as nat) % 10)));
        }
        s
    }
}

/// Whether `s` occurs in `names`.
fn contains_string(names: &Vec<String>, s: &String) -> (r: bool)
    ensures
        r == strings_view(names@).contains(s@),
{
    let mut j: usize = 0;
    while j < names.len()
        invariant
            j <= names.len(),
            forall|k: int| 0 <= k < j ==> strings_view(names@)[k] != s@,
        decreases names.len() - j,
    {
        if names[j] == *s {
            proof {
                assert(strings_view(names@)[j as int] == s@);
            }
            return true;
        }
        j += 1;
    }
    false
}

/// How many of the first `upto` methods bear the given name.
fn count_named_upto(ms: &Vec<MethodSig>, name: &String, upto: usize) -> (r: usize)
    requires
        upto <= ms.len(),
    ensures
        r as nat == spec_count_named(sigs_view(ms@).take(upto as int), name@),
        r <= upto,
{
    let mut cnt: usize = 0;
    let mut j: usize = 0;
    while j < upto
        invariant
            j <= upto <= ms.len(),
            cnt <= j,
            cnt as nat == spec_count_named(sigs_view(ms@).take(j as int), name@),
        decreases upto - j,
    {
        proof {
            assert(sigs_view(ms@).take(j + 1).drop_last() =~= sigs_view(ms@).take(j as int));
            assert(sigs_view(ms@).take(j + 1).last() == sigs_view(ms@)[j as int]);
        }
        if ms[j].name == *name {
            cnt += 1;
        }
        j += 1;
    }
    cnt
}

/// The index of the base overload for `name`, or `None` when no method
/// bears the name.
fn base_index(ms: &Vec<MethodSig>, name: &String) -> (r: Option<usize>)
    ensures
        ({
            match r {
                Option::Some(b) => b < ms.len() && spec_base_index(sigs_view(ms@), name@)
                    == b as int,
                Option::None => spec_base_index(sigs_view(ms@), name@) == -1,
            }
        }),
{
    let mut best: Option<usize> = Option::None;
    let mut j: usize = 0;
    while j < ms.len()
        invariant
            j <= ms.len(),
            ({
                match best {
                    Option::Some(b) => b < j && spec_base_index(
                        sigs_view(ms@).take(j as int),
                        name@,
                    ) == b as int,
                    Option::None => spec_base_index(sigs_view(ms@).take(j as int), name@) == -1,
                }
            }),
        decreases ms.len() - j,
    {
        proof {
            assert(sigs_view(ms@).take(j + 1).drop_last() =~= sigs_view(ms@).take(j as int));
            assert(sigs_view(ms@).take(j + 1).last() == sigs_view(ms@)[j as int]);
            assert(forall|k: int|
                0 <= k < j ==> #[trigger] sigs_view(ms@).take(j + 1)[k] == sigs_view(ms@).take(
                    j as int,
                )[k]);
        }
        if ms[j].name == *name {
            match best {
                Option::None => {
                    best = Option::Some(j);
                },
                Option::Some(b) => {
                    if ms[j].param_names.len() < ms[b].param_names.len() {
                        best = Option::Some(j);
                    }
                },
            }
        }
        j += 1;
    }
    proof {
        assert(sigs_view(ms@).take(ms.len() as int) =~= sigs_view(ms@));
    }
    best
}

/// The resolved binding identifier for the method at index `i` of
/// `ms`, the class's method list in declaration order.
pub fn resolved_name(ms: &Vec<MethodSig>, i: usize) -> (r: String)
    requires
        i < ms.len(),
    ensures
        r@ == spec_resolved_name(sigs_view(ms@), i as int),
{
    let ghost sv = sigs_view(ms@);
    let name = &ms[i].name;
    proof {
        assert(sv.take(ms.len() as int) =~= sv);
    }
    let count = count_named_upto(ms, name, ms.len());
    if count <= 1 {
        return name.clone();
    }
    proof {
        lemma_base_index_props(sv, name@);
    }
    let b = match base_index(ms, name) {
        Option::Some(b) => b,
        Option::None => {
            proof {
                assert(false);
            }
            0
        },
    };
    if i == b {
        return name.clone();
    }
    // The parameter names this overload adds relative to the base's.
    let mine = &ms[i].param_names;
    let base_names = &ms[b].param_names;
    let mut added: Vec<String> = Vec::new();
    proof {
        assert(strings_view(mine@).take(0) =~= Seq::<Seq<char>>::empty());
        assert(spec_added_names(Seq::<Seq<char>>::empty(), strings_view(base_names@))
            =~= Seq::<Seq<char>>::empty());
        assert(strings_view(added@) =~= Seq::<Seq<char>>::empty());
    }
    let mut k: usize = 0;
    while k < mine.len()
        invariant
            k <= mine.len(),
            i < ms.len(),
            b < ms.len(),
            sv == sigs_view(ms@),
            mine == &ms[i as int].param_names,
            base_names == &ms[b as int].param_names,
            strings_view(added@) == spec_added_names(
                strings_view(mine@).take(k as int),
                strings_view(base_names@),
            ),
        decreases mine.len() - k,
    {
        proof {
            assert(strings_view(mine@).take(k + 1).drop_last() =~= strings_view(mine@).take(
                k as int,
            ));
            assert(strings_view(mine@).take(k + 1).last() == strings_view(mine@)[k as int]);
        }
        if !contains_string(base_names, &mine[k]) {
            let ghost prev = added@;
            added.push(mine[k].clone());
            proof {
                assert(strings_view(added@) =~= strings_view(prev).push(mine@[k as int]@));
            }
        }
        k += 1;
    }
    proof {
        assert(strings_view(mine@).take(mine.len() as int) =~= strings_view(mine@));
        assert(sv[i as int].param_names == strings_view(mine@));
        assert(sv[b as int].param_names == strings_view(base_names@));
    }
    let ghost added_spec = spec_added_names(strings_view(mine@), strings_view(base_names@));
    if added.len() > 0 {
        let mut s = name.clone();
        s.append("_with_");
        let mut k: usize = 0;
        while k < added.len()
            invariant
                k <= added.len(),
                added.len() > 0,
                strings_view(added@) == added_spec,
                k == 0 ==> s@ == name@ + "_with_"@,
                k > 0 ==> s@ == name@ + "_with_"@ + spec_join_and(added_spec.take(k as int)),
            decreases added.len() - k,
        {
            if k > 0 {
                s.append("_and_");
            }
            s.append(added[k].as_str());
            proof {
                assert(added_spec.take(k + 1).drop_last() =~= added_spec.take(k as int));
                assert(added_spec.take(k + 1).last() == added_spec[k as int]);
                assert(added_spec[k as int] == added@[k as int]@);
                if k == 0 {
                    assert(spec_join_and(added_spec.take(1)) == added_spec[0]);
                }
            }
            k += 1;
        }
        proof {
            assert(added_spec.take(added.len() as int) =~= added_spec);
        }
        s
    } else {
        let pos = count_named_upto(ms, name, i);
        let mut s = name.clone();
        s.append("_");
        let digits = dec_string(pos);
        s.append(digits.as_str());
        s
    }
}

} // verus!
