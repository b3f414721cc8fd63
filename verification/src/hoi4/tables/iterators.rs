//! Hoi4's built-in list iterators. Each base name stands for the `every_`,
//! `random_` and `any_` iterators of that name.

use vstd::prelude::*;

use crate::order::{insertion_sort, lemma_insert_pos_is, sorted_insert};
use crate::report::errors::{compare_text, text_order};
use crate::game::Game;
use crate::scopes::{spec_scope_bit_name, Scopes, CHARACTER, COUNTRY, STATE, COMBINED_COUNTRY_AND_CHARACTER, COMBINED_COUNTRY_AND_STATE};
use crate::text::{chars_eq, first_index_of, lemma_first_index_is, lemma_first_index_of, to_chars};

verus! {

/// The iterators: input scope types, base name, output scope types.
pub open spec fn iterator_table() -> Seq<(u128, Seq<char>, u128)> {
    seq![
        (0x1u128, "active_scientist"@, 0x40u128),
        (0x20u128, "allied_country"@, 0x20u128),
        (0x20u128, "army_leader"@, 0x40u128),
        (0x20u128, "character"@, 0x40u128),
        (0x20u128, "controlled_state"@, 0x1000u128),
        (0x20u128, "core_state"@, 0x1000u128),
        (0x1u128, "country"@, 0x20u128),
        (0x20u128, "country_division"@, 0x40000u128),
        (0x20u128, "country_with_original_tag"@, 0x20u128),
        (0x20u128, "enemy_country"@, 0x20u128),
        (0x20u128, "military_industrial_organization"@, 0x80000u128),
        (0x20u128, "navy_leader"@, 0x40u128),
        (0x20u128, "neighbor_country"@, 0x20u128),
        (0x1000u128, "neighbor_state"@, 0x1000u128),
        (0x20u128, "occupied_country"@, 0x20u128),
        (0x20u128, "other_country"@, 0x20u128),
        (0x20u128, "owned_state"@, 0x1000u128),
        (0x1u128, "state"@, 0x1000u128),
        (0x20u128, "unit_leader"@, 0x40u128),
    ]
}

pub open spec fn table_view(v: Seq<(Scopes, &'static str, Scopes)>) -> Seq<(u128, Seq<char>, u128)> {
    v.map_values(|e: (Scopes, &'static str, Scopes)| (e.0.bits, e.1@, e.2.bits))
}

/// The iterator table.
pub fn iterator_entries() -> (res: Vec<(Scopes, &'static str, Scopes)>)
    ensures
        table_view(res@) == iterator_table(),
{
    let mut v: Vec<(Scopes, &'static str, Scopes)> = Vec::new();
    v.push((Scopes { bits: 0x1 }, "active_scientist", Scopes { bits: 0x40 }));
    v.push((Scopes { bits: 0x20 }, "allied_country", Scopes { bits: 0x20 }));
    v.push((Scopes { bits: 0x20 }, "army_leader", Scopes { bits: 0x40 }));
    v.push((Scopes { bits: 0x20 }, "character", Scopes { bits: 0x40 }));
    v.push((Scopes { bits: 0x20 }, "controlled_state", Scopes { bits: 0x1000 }));
    v.push((Scopes { bits: 0x20 }, "core_state", Scopes { bits: 0x1000 }));
    v.push((Scopes { bits: 0x1 }, "country", Scopes { bits: 0x20 }));
    v.push((Scopes { bits: 0x20 }, "country_division", Scopes { bits: 0x40000 }));
    v.push((Scopes { bits: 0x20 }, "country_with_original_tag", Scopes { bits: 0x20 }));
    v.push((Scopes { bits: 0x20 }, "enemy_country", Scopes { bits: 0x20 }));
    v.push((Scopes { bits: 0x20 }, "military_industrial_organization", Scopes { bits: 0x80000 }));
    v.push((Scopes { bits: 0x20 }, "navy_leader", Scopes { bits: 0x40 }));
    v.push((Scopes { bits: 0x20 }, "neighbor_country", Scopes { bits: 0x20 }));
    v.push((Scopes { bits: 0x1000 }, "neighbor_state", Scopes { bits: 0x1000 }));
    v.push((Scopes { bits: 0x20 }, "occupied_country", Scopes { bits: 0x20 }));
    v.push((Scopes { bits: 0x20 }, "other_country", Scopes { bits: 0x20 }));
    v.push((Scopes { bits: 0x20 }, "owned_state", Scopes { bits: 0x1000 }));
    v.push((Scopes { bits: 0x1 }, "state", Scopes { bits: 0x1000 }));
    v.push((Scopes { bits: 0x20 }, "unit_leader", Scopes { bits: 0x40 }));
    assert(table_view(v@) =~= iterator_table());
    v
}

/// Hoi4 event scopes that combine a country with a state or a character: an
/// iterator that accepts a country or a state also accepts the combined
/// country-and-state scope, and one that accepts a country or a character
/// also accepts the combined country-and-character scope.
pub open spec fn spec_expand_scopes_hoi4(s: u128) -> u128 {
    let c = 1u128 << COUNTRY;
    let st = 1u128 << STATE;
    let ch = 1u128 << CHARACTER;
    let s1 = if s & c == c || s & st == st { s | (1u128 << COMBINED_COUNTRY_AND_STATE) } else { s };
    if s & c == c || s & ch == ch { s1 | (1u128 << COMBINED_COUNTRY_AND_CHARACTER) } else { s1 }
}

/// Adds the combined event scopes that `scopes` stands in for.
pub fn expand_scopes_hoi4(scopes: Scopes) -> (res: Scopes)
    ensures
        res.bits == spec_expand_scopes_hoi4(scopes.bits),
{
    let mut res = scopes;
    if scopes.contains(Scopes::single(COUNTRY)) || scopes.contains(Scopes::single(STATE)) {
        res.insert(Scopes::single(COMBINED_COUNTRY_AND_STATE));
    }
    if scopes.contains(Scopes::single(COUNTRY)) || scopes.contains(Scopes::single(CHARACTER)) {
        res.insert(Scopes::single(COMBINED_COUNTRY_AND_CHARACTER));
    }
    res
}

pub open spec fn table_names(t: Seq<(u128, Seq<char>, u128)>) -> Seq<Seq<char>> {
    t.map_values(|e: (u128, Seq<char>, u128)| e.1)
}

/// The iterator with base name `name_lc`: the scope types it accepts (with
/// the combined event scopes added) and the scope types it gives.
pub open spec fn spec_iterator(name_lc: Seq<char>) -> Option<(Scopes, Scopes)> {
    let t = iterator_table();
    let i = first_index_of(table_names(t), name_lc);
    if i >= 0 {
        Some((Scopes { bits: spec_expand_scopes_hoi4(t[i].0) }, Scopes { bits: t[i].2 }))
    } else {
        None
    }
}

/// Looks up a built-in iterator by its lower-case base name.
pub fn iterator(name_lc: &str) -> (res: Option<(Scopes, Scopes)>)
    ensures
        res == spec_iterator(name_lc@),
{
    let t = iterator_entries();
    let n = to_chars(name_lc);
    let ghost ns = table_names(table_view(t@));
    let mut i: usize = 0;
    while i < t.len()
        invariant
            i <= t@.len(),
            ns == table_names(table_view(t@)),
            table_view(t@) == iterator_table(),
            n@ == name_lc@,
            forall|k: int| 0 <= k < i ==> ns[k] != n@,
        decreases t.len() - i,
    {
        let (from, s, to) = t[i];
        if chars_eq(&to_chars(s), &n) {
            proof {
                lemma_first_index_is(ns, n@, i as int);
            }
            return Some((expand_scopes_hoi4(from), to));
        }
        i += 1;
    }
    proof {
        lemma_first_index_is(ns, n@, -1);
    }
    None
}

/// `s` without elements equal to the one before them (std's `Vec::dedup`).
pub open spec fn dedup_adjacent<T>(s: Seq<T>) -> Seq<T>
    decreases s.len(),
{
    if s.len() <= 1 {
        s
    } else if s.last() == s[s.len() - 2] {
        dedup_adjacent(s.drop_last())
    } else {
        dedup_adjacent(s.drop_last()).push(s.last())
    }
}

pub open spec fn text_lt_fn() -> spec_fn(Seq<char>, Seq<char>) -> bool {
    |a: Seq<char>, b: Seq<char>| text_order(a, b) < 0
}

pub open spec fn strs_view(v: Seq<&'static str>) -> Seq<Seq<char>> {
    v.map_values(|s: &'static str| s@)
}

/// The base names of all built-in iterators, sorted and without duplicates.
pub fn iterator_names() -> (res: Vec<&'static str>)
    ensures
        strs_view(res@) == dedup_adjacent(insertion_sort(table_names(iterator_table()), text_lt_fn())),
{
    let t = iterator_entries();
    let ghost ns = table_names(table_view(t@));
    let mut sorted: Vec<&'static str> = Vec::new();
    let mut i: usize = 0;
    while i < t.len()
        invariant
            i <= t@.len(),
            ns == table_names(table_view(t@)),
            table_view(t@) == iterator_table(),
            strs_view(sorted@) == insertion_sort(ns.take(i as int), text_lt_fn()),
        decreases t.len() - i,
    {
        let x = t[i].1;
        assert(ns.take(i + 1).drop_last() == ns.take(i as int));
        assert(ns.take(i + 1).last() == x@);
        let xc = to_chars(x);
        let ghost s = strs_view(sorted@);
        let mut j: usize = 0;
        let mut found = false;
        while j < sorted.len() && !found
            invariant
                j <= sorted@.len(),
                s == strs_view(sorted@),
                xc@ == x@,
                forall|k: int| 0 <= k < j ==> !text_lt_fn()(x@, #[trigger] s[k]),
                found ==> j < sorted@.len() && text_lt_fn()(x@, s[j as int]),
            decreases sorted.len() - j + (if found { 0int } else { 1int }),
        {
            if compare_text(&xc, &to_chars(sorted[j])) < 0 {
                found = true;
            } else {
                j += 1;
            }
        }
        proof {
            lemma_insert_pos_is(s, x@, text_lt_fn(), j as int);
        }
        sorted.insert(j, x);
        assert(strs_view(sorted@) =~= s.insert(j as int, x@));
        i += 1;
    }
    assert(ns.take(t@.len() as int) == ns);
    let ghost sv = strs_view(sorted@);
    let mut res: Vec<&'static str> = Vec::new();
    let mut k: usize = 0;
    while k < sorted.len()
        invariant
            k <= sorted@.len(),
            sv == strs_view(sorted@),
            strs_view(res@) == dedup_adjacent(sv.take(k as int)),
            k > 0 ==> res@.len() > 0 && res@.last()@ == sv[k - 1],
        decreases sorted.len() - k,
    {
        assert(sv.take(k + 1).drop_last() == sv.take(k as int));
        if k == 0 {
            res.push(sorted[k]);
            assert(strs_view(res@) =~= sv.take(1));
        } else {
            let a = to_chars(sorted[k - 1]);
            let b = to_chars(sorted[k]);
            assert(sv.take(k + 1)[k - 1] == sv[k - 1]);
            if !chars_eq(&a, &b) {
                let ghost before = res@;
                res.push(sorted[k]);
                assert(strs_view(res@) =~= strs_view(before).push(sv[k as int]));
            }
        }
        k += 1;
    }
    assert(sv.take(sorted@.len() as int) == sv);
    res
}

/// Iterators that no longer exist: name, version, explanation. Hoi4 has none.
pub open spec fn iterator_removed_table() -> Seq<(Seq<char>, Seq<char>, Seq<char>)> {
    Seq::empty()
}

pub open spec fn removed_table_names(t: Seq<(Seq<char>, Seq<char>, Seq<char>)>) -> Seq<Seq<char>> {
    t.map_values(|e: (Seq<char>, Seq<char>, Seq<char>)| e.0)
}

pub open spec fn removed_view(v: Seq<(&'static str, &'static str, &'static str)>) -> Seq<(Seq<char>, Seq<char>, Seq<char>)> {
    v.map_values(|e: (&'static str, &'static str, &'static str)| (e.0@, e.1@, e.2@))
}

/// Looks up a removed iterator by name: the version that removed it and an
/// explanation.
pub fn iterator_removed(name: &str) -> (res: Option<(&'static str, &'static str)>)
    ensures
        ({
            let t = iterator_removed_table();
            let j = first_index_of(removed_table_names(t), name@);
            match res {
                Some((version, explanation)) => j >= 0 && version@ == t[j].1 && explanation@ == t[j].2,
                None => j == -1,
            }
        }),
{
    let removed: Vec<(&'static str, &'static str, &'static str)> = Vec::new();
    let ghost names = removed_table_names(iterator_removed_table());
    assert(removed_view(removed@) =~= iterator_removed_table());
    let mut i: usize = 0;
    while i < removed.len()
        invariant
            i <= removed@.len(),
            removed_view(removed@) == iterator_removed_table(),
            names == removed_table_names(iterator_removed_table()),
            forall|k: int| 0 <= k < i ==> names[k] != name@,
        decreases removed.len() - i,
    {
        let (removed_name, version, explanation) = removed[i];
        assert(names[i as int] == removed_name@);
        if crate::text::str_eq(name, removed_name) {
            proof {
                lemma_first_index_is(names, name@, i as int);
            }
            return Some((version, explanation));
        }
        i += 1;
    }
    proof {
        lemma_first_index_is(names, name@, -1);
    }
    None
}


/// Whether `s` ends with `suffix`.
pub open spec fn name_ends_with(s: Seq<char>, suffix: Seq<char>) -> bool {
    suffix.len() <= s.len() && s.skip(s.len() - suffix.len()) == suffix
}

/// Whether `s` is exactly the scope type of Hoi4 called `name`.
pub open spec fn is_hoi4_scope_named(s: Scopes, name: Seq<char>) -> bool {
    exists|b: u32| b < 128 && s.bits == 1u128 << b && #[trigger] spec_scope_bit_name(Game::Hoi4, b) == Some(name)
}

proof fn lemma_ends_with_char(s: Seq<char>, suffix: Seq<char>, k: int)
    requires
        name_ends_with(s, suffix),
        0 <= k < suffix.len(),
    ensures
        s[s.len() - suffix.len() + k] == suffix[k],
{
    assert(s.skip(s.len() - suffix.len())[k] == suffix[k]);
}

/// The single bits of the Hoi4 scope types that the iterators use.
proof fn lemma_iterator_scope_bits()
    ensures
        0x1u128 == 1u128 << 0u32,
        0x20u128 == 1u128 << 5u32,
        0x40u128 == 1u128 << 6u32,
        0x1000u128 == 1u128 << 12u32,
        0x40000u128 == 1u128 << 18u32,
        0x80000u128 == 1u128 << 19u32,
{
    assert(0x1u128 == 1u128 << 0u32 && 0x20u128 == 1u128 << 5u32 && 0x40u128 == 1u128 << 6u32 && 0x1000u128 == 1u128 << 12u32
        && 0x40000u128 == 1u128 << 18u32 && 0x80000u128 == 1u128 << 19u32) by (bit_vector);
}

/// What a Hoi4 iterator gives follows from the last word of its base name:
/// the `..._state` iterators (and `state`) give states, the `..._country`
/// ones (and `country_with_original_tag`) give countries, the `..._leader`
/// ones, `character` and `active_scientist` give characters,
/// `country_division` gives divisions and
/// `military_industrial_organization` gives industrial organisations.
/// Each gives exactly that one scope type.
pub proof fn law_iterator_gives_what_it_names(name_lc: Seq<char>)
    ensures
        match spec_iterator(name_lc) {
            Some((_, to)) => {
                &&& name_ends_with(name_lc, "state"@) ==> is_hoi4_scope_named(to, "State"@)
                &&& name_ends_with(name_lc, "country"@) ==> is_hoi4_scope_named(to, "Country"@)
                &&& name_ends_with(name_lc, "leader"@) ==> is_hoi4_scope_named(to, "Character"@)
                &&& name_lc == "character"@ ==> is_hoi4_scope_named(to, "Character"@)
                &&& name_lc == "active_scientist"@ ==> is_hoi4_scope_named(to, "Character"@)
                &&& name_ends_with(name_lc, "division"@) ==> is_hoi4_scope_named(to, "Division"@)
                &&& name_ends_with(name_lc, "organization"@) ==> is_hoi4_scope_named(to, "IndustrialOrg"@)
                &&& name_lc == "country_with_original_tag"@ ==> is_hoi4_scope_named(to, "Country"@)
            },
            None => true,
        },
{
    let t = iterator_table();
    let ns = table_names(t);
    lemma_iterator_scope_bits();
    lemma_first_index_of(ns, name_lc);
    let i = first_index_of(ns, name_lc);
    if i >= 0 {
        assert(name_lc == ns[i]);
        reveal_strlit("active_scientist");
        reveal_strlit("country_with_original_tag");
        reveal_strlit("5");
        reveal_strlit("6");
        reveal_strlit("12");
        reveal_strlit("18");
        reveal_strlit("19");
        reveal_strlit("state");
        reveal_strlit("country");
        reveal_strlit("leader");
        reveal_strlit("character");
        reveal_strlit("scientist");
        reveal_strlit("division");
        reveal_strlit("organization");
        reveal_strlit("tag");
        if i == 0 {
            reveal_strlit("active_scientist");
            assert(ns[0] == "active_scientist"@);
            assert(spec_scope_bit_name(Game::Hoi4, 6u32) == Some("Character"@));
            if name_ends_with(name_lc, "state"@) {
                lemma_ends_with_char(name_lc, "state"@, 0);
                assert("active_scientist"@[11] != "state"@[0]);
            }
            if name_ends_with(name_lc, "country"@) {
                lemma_ends_with_char(name_lc, "country"@, 0);
                assert("active_scientist"@[9] != "country"@[0]);
            }
            if name_ends_with(name_lc, "division"@) {
                lemma_ends_with_char(name_lc, "division"@, 0);
                assert("active_scientist"@[8] != "division"@[0]);
            }
            if name_ends_with(name_lc, "organization"@) {
                lemma_ends_with_char(name_lc, "organization"@, 0);
                assert("active_scientist"@[4] != "organization"@[0]);
            }
            assert("active_scientist"@.len() != "country_with_original_tag"@.len());
        } else if i == 1 {
            reveal_strlit("allied_country");
            assert(ns[1] == "allied_country"@);
            assert(spec_scope_bit_name(Game::Hoi4, 5u32) == Some("Country"@));
            if name_ends_with(name_lc, "state"@) {
                lemma_ends_with_char(name_lc, "state"@, 0);
                assert("allied_country"@[9] != "state"@[0]);
            }
            if name_ends_with(name_lc, "leader"@) {
                lemma_ends_with_char(name_lc, "leader"@, 0);
                assert("allied_country"@[8] != "leader"@[0]);
            }
            assert("allied_country"@.len() != "character"@.len());
            assert("allied_country"@.len() != "active_scientist"@.len());
            if name_ends_with(name_lc, "division"@) {
                lemma_ends_with_char(name_lc, "division"@, 0);
                assert("allied_country"@[6] != "division"@[0]);
            }
            if name_ends_with(name_lc, "organization"@) {
                lemma_ends_with_char(name_lc, "organization"@, 0);
                assert("allied_country"@[2] != "organization"@[0]);
            }
        } else if i == 2 {
            reveal_strlit("army_leader");
            assert(ns[2] == "army_leader"@);
            assert(spec_scope_bit_name(Game::Hoi4, 6u32) == Some("Character"@));
            if name_ends_with(name_lc, "state"@) {
                lemma_ends_with_char(name_lc, "state"@, 0);
                assert("army_leader"@[6] != "state"@[0]);
            }
            if name_ends_with(name_lc, "country"@) {
                lemma_ends_with_char(name_lc, "country"@, 0);
                assert("army_leader"@[4] != "country"@[0]);
            }
            if name_ends_with(name_lc, "division"@) {
                lemma_ends_with_char(name_lc, "division"@, 0);
                assert("army_leader"@[3] != "division"@[0]);
            }
            assert("army_leader"@.len() < "organization"@.len());
            assert("army_leader"@.len() != "country_with_original_tag"@.len());
        } else if i == 3 {
            reveal_strlit("character");
            assert(ns[3] == "character"@);
            assert(spec_scope_bit_name(Game::Hoi4, 6u32) == Some("Character"@));
            if name_ends_with(name_lc, "state"@) {
                lemma_ends_with_char(name_lc, "state"@, 0);
                assert("character"@[4] != "state"@[0]);
            }
            if name_ends_with(name_lc, "country"@) {
                lemma_ends_with_char(name_lc, "country"@, 0);
                assert("character"@[2] != "country"@[0]);
            }
            if name_ends_with(name_lc, "division"@) {
                lemma_ends_with_char(name_lc, "division"@, 0);
                assert("character"@[1] != "division"@[0]);
            }
            assert("character"@.len() < "organization"@.len());
            assert("character"@.len() != "country_with_original_tag"@.len());
        } else if i == 4 {
            reveal_strlit("controlled_state");
            assert(ns[4] == "controlled_state"@);
            assert(spec_scope_bit_name(Game::Hoi4, 12u32) == Some("State"@));
            if name_ends_with(name_lc, "country"@) {
                lemma_ends_with_char(name_lc, "country"@, 0);
                assert("controlled_state"@[9] != "country"@[0]);
            }
            if name_ends_with(name_lc, "leader"@) {
                lemma_ends_with_char(name_lc, "leader"@, 0);
                assert("controlled_state"@[10] != "leader"@[0]);
            }
            assert("controlled_state"@.len() != "character"@.len());
            assert("controlled_state"@[0] != "active_scientist"@[0]);
            if name_ends_with(name_lc, "division"@) {
                lemma_ends_with_char(name_lc, "division"@, 0);
                assert("controlled_state"@[8] != "division"@[0]);
            }
            if name_ends_with(name_lc, "organization"@) {
                lemma_ends_with_char(name_lc, "organization"@, 0);
                assert("controlled_state"@[4] != "organization"@[0]);
            }
            assert("controlled_state"@.len() != "country_with_original_tag"@.len());
        } else if i == 5 {
            reveal_strlit("core_state");
            assert(ns[5] == "core_state"@);
            assert(spec_scope_bit_name(Game::Hoi4, 12u32) == Some("State"@));
            if name_ends_with(name_lc, "country"@) {
                lemma_ends_with_char(name_lc, "country"@, 0);
                assert("core_state"@[3] != "country"@[0]);
            }
            if name_ends_with(name_lc, "leader"@) {
                lemma_ends_with_char(name_lc, "leader"@, 0);
                assert("core_state"@[4] != "leader"@[0]);
            }
            assert("core_state"@.len() != "character"@.len());
            assert("core_state"@.len() != "active_scientist"@.len());
            if name_ends_with(name_lc, "division"@) {
                lemma_ends_with_char(name_lc, "division"@, 0);
                assert("core_state"@[2] != "division"@[0]);
            }
            assert("core_state"@.len() < "organization"@.len());
            assert("core_state"@.len() != "country_with_original_tag"@.len());
        } else if i == 6 {
            reveal_strlit("country");
            assert(ns[6] == "country"@);
            assert(spec_scope_bit_name(Game::Hoi4, 5u32) == Some("Country"@));
            if name_ends_with(name_lc, "state"@) {
                lemma_ends_with_char(name_lc, "state"@, 0);
                assert("country"@[2] != "state"@[0]);
            }
            if name_ends_with(name_lc, "leader"@) {
                lemma_ends_with_char(name_lc, "leader"@, 0);
                assert("country"@[1] != "leader"@[0]);
            }
            assert("country"@.len() != "character"@.len());
            assert("country"@.len() != "active_scientist"@.len());
            assert("country"@.len() < "division"@.len());
            assert("country"@.len() < "organization"@.len());
        } else if i == 7 {
            reveal_strlit("country_division");
            assert(ns[7] == "country_division"@);
            assert(spec_scope_bit_name(Game::Hoi4, 18u32) == Some("Division"@));
            if name_ends_with(name_lc, "state"@) {
                lemma_ends_with_char(name_lc, "state"@, 0);
                assert("country_division"@[11] != "state"@[0]);
            }
            if name_ends_with(name_lc, "country"@) {
                lemma_ends_with_char(name_lc, "country"@, 0);
                assert("country_division"@[9] != "country"@[0]);
            }
            if name_ends_with(name_lc, "leader"@) {
                lemma_ends_with_char(name_lc, "leader"@, 0);
                assert("country_division"@[10] != "leader"@[0]);
            }
            assert("country_division"@.len() != "character"@.len());
            assert("country_division"@[0] != "active_scientist"@[0]);
            if name_ends_with(name_lc, "organization"@) {
                lemma_ends_with_char(name_lc, "organization"@, 0);
                assert("country_division"@[4] != "organization"@[0]);
            }
            assert("country_division"@.len() != "country_with_original_tag"@.len());
        } else if i == 8 {
            reveal_strlit("country_with_original_tag");
            assert(ns[8] == "country_with_original_tag"@);
            assert(spec_scope_bit_name(Game::Hoi4, 5u32) == Some("Country"@));
            if name_ends_with(name_lc, "state"@) {
                lemma_ends_with_char(name_lc, "state"@, 0);
                assert("country_with_original_tag"@[20] != "state"@[0]);
            }
            if name_ends_with(name_lc, "leader"@) {
                lemma_ends_with_char(name_lc, "leader"@, 0);
                assert("country_with_original_tag"@[19] != "leader"@[0]);
            }
            assert("country_with_original_tag"@.len() != "character"@.len());
            assert("country_with_original_tag"@.len() != "active_scientist"@.len());
            if name_ends_with(name_lc, "division"@) {
                lemma_ends_with_char(name_lc, "division"@, 0);
                assert("country_with_original_tag"@[17] != "division"@[0]);
            }
            if name_ends_with(name_lc, "organization"@) {
                lemma_ends_with_char(name_lc, "organization"@, 2);
                assert("country_with_original_tag"@[15] != "organization"@[2]);
            }
        } else if i == 9 {
            reveal_strlit("enemy_country");
            assert(ns[9] == "enemy_country"@);
            assert(spec_scope_bit_name(Game::Hoi4, 5u32) == Some("Country"@));
            if name_ends_with(name_lc, "state"@) {
                lemma_ends_with_char(name_lc, "state"@, 0);
                assert("enemy_country"@[8] != "state"@[0]);
            }
            if name_ends_with(name_lc, "leader"@) {
                lemma_ends_with_char(name_lc, "leader"@, 0);
                assert("enemy_country"@[7] != "leader"@[0]);
            }
            assert("enemy_country"@.len() != "character"@.len());
            assert("enemy_country"@.len() != "active_scientist"@.len());
            if name_ends_with(name_lc, "division"@) {
                lemma_ends_with_char(name_lc, "division"@, 0);
                assert("enemy_country"@[5] != "division"@[0]);
            }
            if name_ends_with(name_lc, "organization"@) {
                lemma_ends_with_char(name_lc, "organization"@, 0);
                assert("enemy_country"@[1] != "organization"@[0]);
            }
        } else if i == 10 {
            reveal_strlit("military_industrial_organization");
            assert(ns[10] == "military_industrial_organization"@);
            assert(spec_scope_bit_name(Game::Hoi4, 19u32) == Some("IndustrialOrg"@));
            if name_ends_with(name_lc, "state"@) {
                lemma_ends_with_char(name_lc, "state"@, 0);
                assert("military_industrial_organization"@[27] != "state"@[0]);
            }
            if name_ends_with(name_lc, "country"@) {
                lemma_ends_with_char(name_lc, "country"@, 0);
                assert("military_industrial_organization"@[25] != "country"@[0]);
            }
            if name_ends_with(name_lc, "leader"@) {
                lemma_ends_with_char(name_lc, "leader"@, 0);
                assert("military_industrial_organization"@[26] != "leader"@[0]);
            }
            assert("military_industrial_organization"@.len() != "character"@.len());
            assert("military_industrial_organization"@.len() != "active_scientist"@.len());
            if name_ends_with(name_lc, "division"@) {
                lemma_ends_with_char(name_lc, "division"@, 0);
                assert("military_industrial_organization"@[24] != "division"@[0]);
            }
            assert("military_industrial_organization"@.len() != "country_with_original_tag"@.len());
        } else if i == 11 {
            reveal_strlit("navy_leader");
            assert(ns[11] == "navy_leader"@);
            assert(spec_scope_bit_name(Game::Hoi4, 6u32) == Some("Character"@));
            if name_ends_with(name_lc, "state"@) {
                lemma_ends_with_char(name_lc, "state"@, 0);
                assert("navy_leader"@[6] != "state"@[0]);
            }
            if name_ends_with(name_lc, "country"@) {
                lemma_ends_with_char(name_lc, "country"@, 0);
                assert("navy_leader"@[4] != "country"@[0]);
            }
            if name_ends_with(name_lc, "division"@) {
                lemma_ends_with_char(name_lc, "division"@, 0);
                assert("navy_leader"@[3] != "division"@[0]);
            }
            assert("navy_leader"@.len() < "organization"@.len());
            assert("navy_leader"@.len() != "country_with_original_tag"@.len());
        } else if i == 12 {
            reveal_strlit("neighbor_country");
            assert(ns[12] == "neighbor_country"@);
            assert(spec_scope_bit_name(Game::Hoi4, 5u32) == Some("Country"@));
            if name_ends_with(name_lc, "state"@) {
                lemma_ends_with_char(name_lc, "state"@, 0);
                assert("neighbor_country"@[11] != "state"@[0]);
            }
            if name_ends_with(name_lc, "leader"@) {
                lemma_ends_with_char(name_lc, "leader"@, 0);
                assert("neighbor_country"@[10] != "leader"@[0]);
            }
            assert("neighbor_country"@.len() != "character"@.len());
            assert("neighbor_country"@[0] != "active_scientist"@[0]);
            if name_ends_with(name_lc, "division"@) {
                lemma_ends_with_char(name_lc, "division"@, 0);
                assert("neighbor_country"@[8] != "division"@[0]);
            }
            if name_ends_with(name_lc, "organization"@) {
                lemma_ends_with_char(name_lc, "organization"@, 0);
                assert("neighbor_country"@[4] != "organization"@[0]);
            }
        } else if i == 13 {
            reveal_strlit("neighbor_state");
            assert(ns[13] == "neighbor_state"@);
            assert(spec_scope_bit_name(Game::Hoi4, 12u32) == Some("State"@));
            if name_ends_with(name_lc, "country"@) {
                lemma_ends_with_char(name_lc, "country"@, 0);
                assert("neighbor_state"@[7] != "country"@[0]);
            }
            if name_ends_with(name_lc, "leader"@) {
                lemma_ends_with_char(name_lc, "leader"@, 0);
                assert("neighbor_state"@[8] != "leader"@[0]);
            }
            assert("neighbor_state"@.len() != "character"@.len());
            assert("neighbor_state"@.len() != "active_scientist"@.len());
            if name_ends_with(name_lc, "division"@) {
                lemma_ends_with_char(name_lc, "division"@, 0);
                assert("neighbor_state"@[6] != "division"@[0]);
            }
            if name_ends_with(name_lc, "organization"@) {
                lemma_ends_with_char(name_lc, "organization"@, 0);
                assert("neighbor_state"@[2] != "organization"@[0]);
            }
            assert("neighbor_state"@.len() != "country_with_original_tag"@.len());
        } else if i == 14 {
            reveal_strlit("occupied_country");
            assert(ns[14] == "occupied_country"@);
            assert(spec_scope_bit_name(Game::Hoi4, 5u32) == Some("Country"@));
            if name_ends_with(name_lc, "state"@) {
                lemma_ends_with_char(name_lc, "state"@, 0);
                assert("occupied_country"@[11] != "state"@[0]);
            }
            if name_ends_with(name_lc, "leader"@) {
                lemma_ends_with_char(name_lc, "leader"@, 0);
                assert("occupied_country"@[10] != "leader"@[0]);
            }
            assert("occupied_country"@.len() != "character"@.len());
            assert("occupied_country"@[0] != "active_scientist"@[0]);
            if name_ends_with(name_lc, "division"@) {
                lemma_ends_with_char(name_lc, "division"@, 0);
                assert("occupied_country"@[8] != "division"@[0]);
            }
            if name_ends_with(name_lc, "organization"@) {
                lemma_ends_with_char(name_lc, "organization"@, 0);
                assert("occupied_country"@[4] != "organization"@[0]);
            }
        } else if i == 15 {
            reveal_strlit("other_country");
            assert(ns[15] == "other_country"@);
            assert(spec_scope_bit_name(Game::Hoi4, 5u32) == Some("Country"@));
            if name_ends_with(name_lc, "state"@) {
                lemma_ends_with_char(name_lc, "state"@, 0);
                assert("other_country"@[8] != "state"@[0]);
            }
            if name_ends_with(name_lc, "leader"@) {
                lemma_ends_with_char(name_lc, "leader"@, 0);
                assert("other_country"@[7] != "leader"@[0]);
            }
            assert("other_country"@.len() != "character"@.len());
            assert("other_country"@.len() != "active_scientist"@.len());
            if name_ends_with(name_lc, "division"@) {
                lemma_ends_with_char(name_lc, "division"@, 0);
                assert("other_country"@[5] != "division"@[0]);
            }
            if name_ends_with(name_lc, "organization"@) {
                lemma_ends_with_char(name_lc, "organization"@, 0);
                assert("other_country"@[1] != "organization"@[0]);
            }
        } else if i == 16 {
            reveal_strlit("owned_state");
            assert(ns[16] == "owned_state"@);
            assert(spec_scope_bit_name(Game::Hoi4, 12u32) == Some("State"@));
            if name_ends_with(name_lc, "country"@) {
                lemma_ends_with_char(name_lc, "country"@, 0);
                assert("owned_state"@[4] != "country"@[0]);
            }
            if name_ends_with(name_lc, "leader"@) {
                lemma_ends_with_char(name_lc, "leader"@, 0);
                assert("owned_state"@[5] != "leader"@[0]);
            }
            assert("owned_state"@.len() != "character"@.len());
            assert("owned_state"@.len() != "active_scientist"@.len());
            if name_ends_with(name_lc, "division"@) {
                lemma_ends_with_char(name_lc, "division"@, 0);
                assert("owned_state"@[3] != "division"@[0]);
            }
            assert("owned_state"@.len() < "organization"@.len());
            assert("owned_state"@.len() != "country_with_original_tag"@.len());
        } else if i == 17 {
            reveal_strlit("state");
            assert(ns[17] == "state"@);
            assert(spec_scope_bit_name(Game::Hoi4, 12u32) == Some("State"@));
            assert("state"@.len() < "country"@.len());
            assert("state"@.len() < "leader"@.len());
            assert("state"@.len() != "character"@.len());
            assert("state"@.len() != "active_scientist"@.len());
            assert("state"@.len() < "division"@.len());
            assert("state"@.len() < "organization"@.len());
            assert("state"@.len() != "country_with_original_tag"@.len());
        } else if i == 18 {
            reveal_strlit("unit_leader");
            assert(ns[18] == "unit_leader"@);
            assert(spec_scope_bit_name(Game::Hoi4, 6u32) == Some("Character"@));
            if name_ends_with(name_lc, "state"@) {
                lemma_ends_with_char(name_lc, "state"@, 0);
                assert("unit_leader"@[6] != "state"@[0]);
            }
            if name_ends_with(name_lc, "country"@) {
                lemma_ends_with_char(name_lc, "country"@, 0);
                assert("unit_leader"@[4] != "country"@[0]);
            }
            if name_ends_with(name_lc, "division"@) {
                lemma_ends_with_char(name_lc, "division"@, 0);
                assert("unit_leader"@[3] != "division"@[0]);
            }
            assert("unit_leader"@.len() < "organization"@.len());
            assert("unit_leader"@.len() != "country_with_original_tag"@.len());
        }
    }
}


/// Whether `s` is the scope type of Hoi4 called `name`, with the combined
/// event scopes that it stands in for.
pub open spec fn is_hoi4_expanded_scope_named(s: Scopes, name: Seq<char>) -> bool {
    exists|b: u32| b < 128 && s.bits == spec_expand_scopes_hoi4(1u128 << b) && #[trigger] spec_scope_bit_name(Game::Hoi4, b) == Some(name)
}

/// What a Hoi4 iterator accepts: `country`, `state` and `active_scientist`
/// range over the whole game and accept any scope (the scope type `None`),
/// `neighbor_state` accepts a state, and every other iterator accepts a
/// country; each with the combined event scopes standing in for those.
pub proof fn law_iterator_accepts(name_lc: Seq<char>)
    ensures
        match spec_iterator(name_lc) {
            Some((from, _)) => {
                &&& (name_lc == "country"@ || name_lc == "state"@ || name_lc == "active_scientist"@)
                    ==> is_hoi4_expanded_scope_named(from, "None"@)
                &&& name_lc == "neighbor_state"@ ==> is_hoi4_expanded_scope_named(from, "State"@)
                &&& !(name_lc == "country"@ || name_lc == "state"@ || name_lc == "active_scientist"@
                    || name_lc == "neighbor_state"@) ==> is_hoi4_expanded_scope_named(from, "Country"@)
            },
            None => true,
        },
{
    let t = iterator_table();
    let ns = table_names(t);
    lemma_iterator_scope_bits();
    lemma_first_index_of(ns, name_lc);
    let i = first_index_of(ns, name_lc);
    if i >= 0 {
        assert(name_lc == ns[i]);
        reveal_strlit("country");
        reveal_strlit("state");
        reveal_strlit("active_scientist");
        reveal_strlit("neighbor_state");
        reveal_strlit("None");
        reveal_strlit("Country");
        reveal_strlit("State");
        if i == 0 {
            reveal_strlit("active_scientist");
            assert(ns[0] == "active_scientist"@);
            assert(spec_scope_bit_name(Game::Hoi4, 0u32) == Some("None"@));
            assert("active_scientist"@.len() != "country"@.len());
            assert("active_scientist"@.len() != "state"@.len());
            assert("active_scientist"@.len() != "neighbor_state"@.len());
        } else if i == 1 {
            reveal_strlit("allied_country");
            assert(ns[1] == "allied_country"@);
            assert(spec_scope_bit_name(Game::Hoi4, 5u32) == Some("Country"@));
            assert("allied_country"@.len() != "country"@.len());
            assert("allied_country"@.len() != "state"@.len());
            assert("allied_country"@.len() != "active_scientist"@.len());
            assert("allied_country"@[0] != "neighbor_state"@[0]);
        } else if i == 2 {
            reveal_strlit("army_leader");
            assert(ns[2] == "army_leader"@);
            assert(spec_scope_bit_name(Game::Hoi4, 5u32) == Some("Country"@));
            assert("army_leader"@.len() != "country"@.len());
            assert("army_leader"@.len() != "state"@.len());
            assert("army_leader"@.len() != "active_scientist"@.len());
            assert("army_leader"@.len() != "neighbor_state"@.len());
        } else if i == 3 {
            reveal_strlit("character");
            assert(ns[3] == "character"@);
            assert(spec_scope_bit_name(Game::Hoi4, 5u32) == Some("Country"@));
            assert("character"@.len() != "country"@.len());
            assert("character"@.len() != "state"@.len());
            assert("character"@.len() != "active_scientist"@.len());
            assert("character"@.len() != "neighbor_state"@.len());
        } else if i == 4 {
            reveal_strlit("controlled_state");
            assert(ns[4] == "controlled_state"@);
            assert(spec_scope_bit_name(Game::Hoi4, 5u32) == Some("Country"@));
            assert("controlled_state"@.len() != "country"@.len());
            assert("controlled_state"@.len() != "state"@.len());
            assert("controlled_state"@[0] != "active_scientist"@[0]);
            assert("controlled_state"@.len() != "neighbor_state"@.len());
        } else if i == 5 {
            reveal_strlit("core_state");
            assert(ns[5] == "core_state"@);
            assert(spec_scope_bit_name(Game::Hoi4, 5u32) == Some("Country"@));
            assert("core_state"@.len() != "country"@.len());
            assert("core_state"@.len() != "state"@.len());
            assert("core_state"@.len() != "active_scientist"@.len());
            assert("core_state"@.len() != "neighbor_state"@.len());
        } else if i == 6 {
            reveal_strlit("country");
            assert(ns[6] == "country"@);
            assert(spec_scope_bit_name(Game::Hoi4, 0u32) == Some("None"@));
            assert("country"@.len() != "state"@.len());
            assert("country"@.len() != "active_scientist"@.len());
            assert("country"@.len() != "neighbor_state"@.len());
        } else if i == 7 {
            reveal_strlit("country_division");
            assert(ns[7] == "country_division"@);
            assert(spec_scope_bit_name(Game::Hoi4, 5u32) == Some("Country"@));
            assert("country_division"@.len() != "country"@.len());
            assert("country_division"@.len() != "state"@.len());
            assert("country_division"@[0] != "active_scientist"@[0]);
            assert("country_division"@.len() != "neighbor_state"@.len());
        } else if i == 8 {
            reveal_strlit("country_with_original_tag");
            assert(ns[8] == "country_with_original_tag"@);
            assert(spec_scope_bit_name(Game::Hoi4, 5u32) == Some("Country"@));
            assert("country_with_original_tag"@.len() != "country"@.len());
            assert("country_with_original_tag"@.len() != "state"@.len());
            assert("country_with_original_tag"@.len() != "active_scientist"@.len());
            assert("country_with_original_tag"@.len() != "neighbor_state"@.len());
        } else if i == 9 {
            reveal_strlit("enemy_country");
            assert(ns[9] == "enemy_country"@);
            assert(spec_scope_bit_name(Game::Hoi4, 5u32) == Some("Country"@));
            assert("enemy_country"@.len() != "country"@.len());
            assert("enemy_country"@.len() != "state"@.len());
            assert("enemy_country"@.len() != "active_scientist"@.len());
            assert("enemy_country"@.len() != "neighbor_state"@.len());
        } else if i == 10 {
            reveal_strlit("military_industrial_organization");
            assert(ns[10] == "military_industrial_organization"@);
            assert(spec_scope_bit_name(Game::Hoi4, 5u32) == Some("Country"@));
            assert("military_industrial_organization"@.len() != "country"@.len());
            assert("military_industrial_organization"@.len() != "state"@.len());
            assert("military_industrial_organization"@.len() != "active_scientist"@.len());
            assert("military_industrial_organization"@.len() != "neighbor_state"@.len());
        } else if i == 11 {
            reveal_strlit("navy_leader");
            assert(ns[11] == "navy_leader"@);
            assert(spec_scope_bit_name(Game::Hoi4, 5u32) == Some("Country"@));
            assert("navy_leader"@.len() != "country"@.len());
            assert("navy_leader"@.len() != "state"@.len());
            assert("navy_leader"@.len() != "active_scientist"@.len());
            assert("navy_leader"@.len() != "neighbor_state"@.len());
        } else if i == 12 {
            reveal_strlit("neighbor_country");
            assert(ns[12] == "neighbor_country"@);
            assert(spec_scope_bit_name(Game::Hoi4, 5u32) == Some("Country"@));
            assert("neighbor_country"@.len() != "country"@.len());
            assert("neighbor_country"@.len() != "state"@.len());
            assert("neighbor_country"@[0] != "active_scientist"@[0]);
            assert("neighbor_country"@.len() != "neighbor_state"@.len());
        } else if i == 13 {
            reveal_strlit("neighbor_state");
            assert(ns[13] == "neighbor_state"@);
            assert(spec_scope_bit_name(Game::Hoi4, 12u32) == Some("State"@));
            assert("neighbor_state"@.len() != "country"@.len());
            assert("neighbor_state"@.len() != "state"@.len());
            assert("neighbor_state"@.len() != "active_scientist"@.len());
        } else if i == 14 {
            reveal_strlit("occupied_country");
            assert(ns[14] == "occupied_country"@);
            assert(spec_scope_bit_name(Game::Hoi4, 5u32) == Some("Country"@));
            assert("occupied_country"@.len() != "country"@.len());
            assert("occupied_country"@.len() != "state"@.len());
            assert("occupied_country"@[0] != "active_scientist"@[0]);
            assert("occupied_country"@.len() != "neighbor_state"@.len());
        } else if i == 15 {
            reveal_strlit("other_country");
            assert(ns[15] == "other_country"@);
            assert(spec_scope_bit_name(Game::Hoi4, 5u32) == Some("Country"@));
            assert("other_country"@.len() != "country"@.len());
            assert("other_country"@.len() != "state"@.len());
            assert("other_country"@.len() != "active_scientist"@.len());
            assert("other_country"@.len() != "neighbor_state"@.len());
        } else if i == 16 {
            reveal_strlit("owned_state");
            assert(ns[16] == "owned_state"@);
            assert(spec_scope_bit_name(Game::Hoi4, 5u32) == Some("Country"@));
            assert("owned_state"@.len() != "country"@.len());
            assert("owned_state"@.len() != "state"@.len());
            assert("owned_state"@.len() != "active_scientist"@.len());
            assert("owned_state"@.len() != "neighbor_state"@.len());
        } else if i == 17 {
            reveal_strlit("state");
            assert(ns[17] == "state"@);
            assert(spec_scope_bit_name(Game::Hoi4, 0u32) == Some("None"@));
            assert("state"@.len() != "country"@.len());
            assert("state"@.len() != "active_scientist"@.len());
            assert("state"@.len() != "neighbor_state"@.len());
        } else if i == 18 {
            reveal_strlit("unit_leader");
            assert(ns[18] == "unit_leader"@);
            assert(spec_scope_bit_name(Game::Hoi4, 5u32) == Some("Country"@));
            assert("unit_leader"@.len() != "country"@.len());
            assert("unit_leader"@.len() != "state"@.len());
            assert("unit_leader"@.len() != "active_scientist"@.len());
            assert("unit_leader"@.len() != "neighbor_state"@.len());
        }
    }
}

} // verus!
