//! Hotkey tables of the engine configuration, per input category and per
//! input mode, for the normal and the game profile.
//!
//! A key is identified by a `u64` whose order is that of the engine's keys;
//! a table lists its bindings sorted by key, each key once, as a `BTreeMap`
//! yields them.
use vstd::prelude::*;

use crate::profile::Profile;

verus! {

/// Whether `key` is bound to `value` in the table `s`.
pub open spec fn has_entry<V>(s: Seq<(u64, V)>, key: u64, value: V) -> bool {
    exists|i: int| 0 <= i < s.len() && #[trigger] s[i] == (key, value)
}

/// Whether `key` is bound in the table `s`.
pub open spec fn has_key<V>(s: Seq<(u64, V)>, key: u64) -> bool {
    exists|i: int| 0 <= i < s.len() && #[trigger] s[i].0 == key
}

/// Whether the table lists its keys in increasing order, each once.
pub open spec fn strictly_sorted<V>(s: Seq<(u64, V)>) -> bool {
    forall|i: int, j: int| 0 <= i < j < s.len() ==> #[trigger] s[i].0 < #[trigger] s[j].0
}

/// `m` is the table of a category (or mode) whose own bindings are `specific`
/// and whose fallbacks are the global bindings `global`: the own binding of
/// a key wins, and every global key that has none is bound globally.
pub open spec fn is_merge_of<V>(m: Seq<(u64, V)>, specific: Seq<(u64, V)>, global: Seq<(u64, V)>) -> bool {
    &&& strictly_sorted(m)
    &&& forall|key: u64, value: V|
        #![trigger has_entry(m, key, value)]
        #![trigger has_entry(specific, key, value)]
        #![trigger has_entry(global, key, value)]
        has_entry(m, key, value) <==> (has_entry(specific, key, value) || (has_entry(global, key, value)
            && !has_key(specific, key)))
}

proof fn lemma_has_entry_push<V>(s: Seq<(u64, V)>, e: (u64, V), key: u64, value: V)
    ensures
        has_entry(s.push(e), key, value) == (has_entry(s, key, value) || e == (key, value)),
{
    if has_entry(s, key, value) {
        let i = choose|i: int| 0 <= i < s.len() && #[trigger] s[i] == (key, value);
        assert(s.push(e)[i] == (key, value));
    }
    if e == (key, value) {
        assert(s.push(e)[s.len() as int] == (key, value));
    }
    if has_entry(s.push(e), key, value) {
        let i = choose|i: int| 0 <= i < s.push(e).len() && #[trigger] s.push(e)[i] == (key, value);
        if i < s.len() {
            assert(s[i] == (key, value));
        }
    }
}

/// Builds the table of one category (or mode): its own bindings, with every
/// global binding added whose key it does not bind itself.
pub fn merge_hotkeys<V: Copy>(specific: &Vec<(u64, V)>, global: &Vec<(u64, V)>) -> (merged: Vec<(u64, V)>)
    requires
        strictly_sorted(specific@),
        strictly_sorted(global@),
    ensures
        is_merge_of(merged@, specific@, global@),
{
    let ghost s = specific@;
    let ghost g = global@;
    let mut merged: Vec<(u64, V)> = Vec::new();
    let mut i: usize = 0;
    let mut j: usize = 0;
    while i < specific.len() || j < global.len()
        invariant
            s == specific@,
            g == global@,
            strictly_sorted(s),
            strictly_sorted(g),
            0 <= i <= s.len(),
            0 <= j <= g.len(),
            strictly_sorted(merged@),
            merged@.len() > 0 && i < s.len() ==> merged@.last().0 < s[i as int].0,
            merged@.len() > 0 && j < g.len() ==> merged@.last().0 < g[j as int].0,
            forall|p: int| 0 <= p < i && j < g.len() ==> #[trigger] s[p].0 < g[j as int].0,
            forall|key: u64, value: V|
                #![trigger has_entry(merged@, key, value)]
                has_entry(merged@, key, value) <==> (has_entry(s.take(i as int), key, value) || (has_entry(
                    g.take(j as int),
                    key,
                    value,
                ) && !has_key(s, key))),
        decreases (s.len() - i) + (g.len() - j),
    {
        let ghost old_merged = merged@;
        let ghost old_i = i as int;
        let ghost old_j = j as int;
        let take_specific = if i < specific.len() && j < global.len() {
            specific[i].0 <= global[j].0
        } else {
            i < specific.len()
        };
        if take_specific {
            let e = specific[i];
            let same_key = j < global.len() && global[j].0 == e.0;
            merged.push(e);
            i = i + 1;
            if same_key {
                j = j + 1;
            }
            proof {
                assert(s.take(i as int) =~= s.take(old_i).push(e));
                if same_key {
                    assert(g.take(j as int) =~= g.take(old_j).push(g[old_j]));
                    assert(has_key(s, g[old_j].0)) by {
                        assert(s[old_i].0 == g[old_j].0);
                    }
                } else {
                    assert(g.take(j as int) =~= g.take(old_j));
                }
                assert forall|key: u64, value: V|
                    #![trigger has_entry(merged@, key, value)]
                    has_entry(merged@, key, value) <==> (has_entry(s.take(i as int), key, value) || (has_entry(
                        g.take(j as int),
                        key,
                        value,
                    ) && !has_key(s, key))) by {
                    lemma_has_entry_push(old_merged, e, key, value);
                    lemma_has_entry_push(s.take(old_i), e, key, value);
                    if same_key {
                        lemma_has_entry_push(g.take(old_j), g[old_j], key, value);
                    }
                }
                assert forall|p: int| 0 <= p < i && j < g.len() implies #[trigger] s[p].0 < g[j as int].0 by {
                    if same_key {
                        assert(s[p].0 <= s[old_i].0);
                        assert(g[old_j].0 < g[j as int].0);
                    } else if p < old_i {
                    } else {
                        assert(p == old_i);
                    }
                }
            }
        } else {
            let e = global[j];
            merged.push(e);
            j = j + 1;
            proof {
                assert(g.take(j as int) =~= g.take(old_j).push(e));
                assert(s.take(i as int) =~= s.take(old_i));
                assert(!has_key(s, e.0)) by {
                    if has_key(s, e.0) {
                        let p = choose|p: int| 0 <= p < s.len() && #[trigger] s[p].0 == e.0;
                        if p < old_i {
                            assert(s[p].0 < g[old_j].0);
                        } else {
                            assert(s[old_i].0 <= s[p].0);
                        }
                    }
                }
                assert forall|key: u64, value: V|
                    #![trigger has_entry(merged@, key, value)]
                    has_entry(merged@, key, value) <==> (has_entry(s.take(i as int), key, value) || (has_entry(
                        g.take(j as int),
                        key,
                        value,
                    ) && !has_key(s, key))) by {
                    lemma_has_entry_push(old_merged, e, key, value);
                    lemma_has_entry_push(g.take(old_j), e, key, value);
                }
                assert forall|p: int| 0 <= p < i && j < g.len() implies #[trigger] s[p].0 < g[j as int].0 by {
                    assert(s[p].0 < g[old_j].0);
                    assert(g[old_j].0 < g[j as int].0);
                }
            }
        }
    }
    proof {
        assert(s.take(i as int) =~= s);
        assert(g.take(j as int) =~= g);
    }
    merged
}

/// Builds the table of every category (or every mode): `specific[c]` holds
/// the own bindings of category `c`, empty where it has none.
pub fn build_hotkey_tables<V: Copy>(specific: &Vec<Vec<(u64, V)>>, global: &Vec<(u64, V)>) -> (tables: Vec<
    Vec<(u64, V)>,
>)
    requires
        forall|c: int| 0 <= c < specific@.len() ==> strictly_sorted(#[trigger] specific@[c]@),
        strictly_sorted(global@),
    ensures
        tables@.len() == specific@.len(),
        forall|c: int|
            0 <= c < tables@.len() ==> is_merge_of(#[trigger] tables@[c]@, specific@[c]@, global@),
{
    let mut tables: Vec<Vec<(u64, V)>> = Vec::new();
    let mut c: usize = 0;
    while c < specific.len()
        invariant
            0 <= c <= specific@.len(),
            forall|d: int| 0 <= d < specific@.len() ==> strictly_sorted(#[trigger] specific@[d]@),
            strictly_sorted(global@),
            tables@.len() == c,
            forall|d: int| 0 <= d < c ==> is_merge_of(#[trigger] tables@[d]@, specific@[d]@, global@),
        decreases specific@.len() - c,
    {
        let table = merge_hotkeys(&specific[c], global);
        tables.push(table);
        c = c + 1;
    }
    tables
}

/// Whether `key` is bound in some table of `tables`.
pub open spec fn bound_in_some<V>(tables: Seq<Vec<(u64, V)>>, key: u64) -> bool {
    exists|c: int| 0 <= c < tables.len() && has_key(#[trigger] tables[c]@, key)
}

fn table_has_key<V>(table: &Vec<(u64, V)>, key: u64) -> (res: bool)
    ensures
        res == has_key(table@, key),
{
    let mut i: usize = 0;
    while i < table.len()
        invariant
            0 <= i <= table@.len(),
            forall|p: int| 0 <= p < i ==> (#[trigger] table@[p]).0 != key,
        decreases table@.len() - i,
    {
        if table[i].0 == key {
            return true;
        }
        i = i + 1;
    }
    false
}

fn some_table_has_key<V>(tables: &Vec<Vec<(u64, V)>>, key: u64) -> (res: bool)
    ensures
        res == bound_in_some(tables@, key),
{
    let mut c: usize = 0;
    while c < tables.len()
        invariant
            0 <= c <= tables@.len(),
            forall|d: int| 0 <= d < c ==> !has_key(#[trigger] tables@[d]@, key),
        decreases tables@.len() - c,
    {
        if table_has_key(&tables[c], key) {
            return true;
        }
        c = c + 1;
    }
    false
}

/// The hotkey tables of the engine configuration: per input category and per
/// input mode, for the normal and for the game profile.
pub struct HotkeyTables<V> {
    pub category: Vec<Vec<(u64, V)>>,
    pub mode: Vec<Vec<(u64, V)>>,
    pub game_category: Vec<Vec<(u64, V)>>,
    pub game_mode: Vec<Vec<(u64, V)>>,
}

/// Whether the profile binds `key` as a hotkey of some category or mode.
pub open spec fn spec_is_configured_hotkey<V>(tables: HotkeyTables<V>, profile: Profile, key: u64) -> bool {
    match profile {
        Profile::Normal => bound_in_some(tables.category@, key) || bound_in_some(tables.mode@, key),
        Profile::Game => bound_in_some(tables.game_category@, key) || bound_in_some(tables.game_mode@, key),
    }
}

/// Whether a held key may repeat: never a modifier key (Shift, Control, Alt,
/// Super), never a hotkey of the profile in force.
pub open spec fn spec_can_repeat<V>(tables: HotkeyTables<V>, profile: Profile, key: u64, modifier_key: bool) -> bool {
    !modifier_key && !spec_is_configured_hotkey(tables, profile, key)
}

impl<V: Copy> HotkeyTables<V> {
    /// Builds the tables from the engine configuration: the own bindings of
    /// each category and each mode, the global bindings of the normal
    /// profile and those of the game profile.
    pub fn build(
        category_specific: &Vec<Vec<(u64, V)>>,
        mode_specific: &Vec<Vec<(u64, V)>>,
        global: &Vec<(u64, V)>,
        game_global: &Vec<(u64, V)>,
    ) -> (tables: Self)
        requires
            forall|c: int| 0 <= c < category_specific@.len() ==> strictly_sorted(#[trigger] category_specific@[c]@),
            forall|c: int| 0 <= c < mode_specific@.len() ==> strictly_sorted(#[trigger] mode_specific@[c]@),
            strictly_sorted(global@),
            strictly_sorted(game_global@),
        ensures
            tables.category@.len() == category_specific@.len(),
            tables.game_category@.len() == category_specific@.len(),
            tables.mode@.len() == mode_specific@.len(),
            tables.game_mode@.len() == mode_specific@.len(),
            forall|c: int|
                0 <= c < category_specific@.len() ==> is_merge_of(#[trigger] tables.category@[c]@, category_specific@[c]@, global@)
                    && is_merge_of(tables.game_category@[c]@, category_specific@[c]@, game_global@),
            forall|c: int|
                0 <= c < mode_specific@.len() ==> is_merge_of(#[trigger] tables.mode@[c]@, mode_specific@[c]@, global@)
                    && is_merge_of(tables.game_mode@[c]@, mode_specific@[c]@, game_global@),
    {
        HotkeyTables {
            category: build_hotkey_tables(category_specific, global),
            mode: build_hotkey_tables(mode_specific, global),
            game_category: build_hotkey_tables(category_specific, game_global),
            game_mode: build_hotkey_tables(mode_specific, game_global),
        }
    }

    /// Whether `key` is a hotkey of some category or mode in `profile`.
    pub fn is_configured_hotkey(&self, profile: Profile, key: u64) -> (res: bool)
        ensures
            res == spec_is_configured_hotkey(*self, profile, key),
            // Under the game profile: bound in some game category table or some game mode table.
            profile == Profile::Game ==> (res <==> ((exists|c: int|
                0 <= c < self.game_category@.len() && has_key(#[trigger] self.game_category@[c]@, key)) || (exists|c: int|
                0 <= c < self.game_mode@.len() && has_key(#[trigger] self.game_mode@[c]@, key)))),
            // Under the normal profile: bound in some category table or some mode table.
            profile == Profile::Normal ==> (res <==> ((exists|c: int|
                0 <= c < self.category@.len() && has_key(#[trigger] self.category@[c]@, key)) || (exists|c: int|
                0 <= c < self.mode@.len() && has_key(#[trigger] self.mode@[c]@, key)))),
    {
        match profile {
            Profile::Normal => some_table_has_key(&self.category, key) || some_table_has_key(&self.mode, key),
            Profile::Game => some_table_has_key(&self.game_category, key) || some_table_has_key(
                &self.game_mode,
                key,
            ),
        }
    }

    /// Whether the held key `key` may be repeated by the XIM fallback;
    /// `modifier_key` tells whether its key code is Shift, a Control, an Alt
    /// or a Super key.
    pub fn can_repeat(&self, profile: Profile, key: u64, modifier_key: bool) -> (res: bool)
        ensures
            res == spec_can_repeat(*self, profile, key, modifier_key),
            // A modifier key never repeats.
            modifier_key ==> !res,
            // Any other key repeats exactly when no table of the profile binds it.
            profile == Profile::Game && !modifier_key ==> (res <==> !((exists|c: int|
                0 <= c < self.game_category@.len() && has_key(#[trigger] self.game_category@[c]@, key)) || (exists|c: int|
                0 <= c < self.game_mode@.len() && has_key(#[trigger] self.game_mode@[c]@, key)))),
            profile == Profile::Normal && !modifier_key ==> (res <==> !((exists|c: int|
                0 <= c < self.category@.len() && has_key(#[trigger] self.category@[c]@, key)) || (exists|c: int|
                0 <= c < self.mode@.len() && has_key(#[trigger] self.mode@[c]@, key)))),
    {
        if modifier_key {
            return false;
        }
        !self.is_configured_hotkey(profile, key)
    }
}

/// A category's own binding of a key wins over the global binding of the
/// same key, and a global binding fills in where the category binds nothing.
pub proof fn lemma_own_binding_wins<V>(
    m: Seq<(u64, V)>,
    specific: Seq<(u64, V)>,
    global: Seq<(u64, V)>,
    key: u64,
    value: V,
)
    requires
        is_merge_of(m, specific, global),
    ensures
        has_entry(specific, key, value) ==> has_entry(m, key, value),
        has_entry(global, key, value) && !has_key(specific, key) ==> has_entry(m, key, value),
        has_entry(m, key, value) ==> has_entry(specific, key, value) || has_entry(global, key, value),
{
}

/// A merged table binds each key to one value only.
pub proof fn lemma_merged_binding_unique<V>(
    m: Seq<(u64, V)>,
    specific: Seq<(u64, V)>,
    global: Seq<(u64, V)>,
    key: u64,
    v1: V,
    v2: V,
)
    requires
        is_merge_of(m, specific, global),
        has_entry(m, key, v1),
        has_entry(m, key, v2),
    ensures
        v1 == v2,
{
    let i = choose|i: int| 0 <= i < m.len() && #[trigger] m[i] == (key, v1);
    let j = choose|j: int| 0 <= j < m.len() && #[trigger] m[j] == (key, v2);
    if i < j {
        assert(m[i].0 < m[j].0);
    } else if j < i {
        assert(m[j].0 < m[i].0);
    }
}

/// A key bound in any table of a profile, category or mode, is a hotkey of
/// that profile and never repeats under it; a key that no table of the
/// profile binds is no hotkey of it.
pub proof fn lemma_every_table_of_the_profile_counts<V>(tables: HotkeyTables<V>, key: u64, c: int)
    ensures
        0 <= c < tables.game_mode@.len() && has_key(tables.game_mode@[c]@, key) ==> spec_is_configured_hotkey(
            tables,
            Profile::Game,
            key,
        ) && !spec_can_repeat(tables, Profile::Game, key, false),
        0 <= c < tables.game_category@.len() && has_key(tables.game_category@[c]@, key)
            ==> spec_is_configured_hotkey(tables, Profile::Game, key) && !spec_can_repeat(
            tables,
            Profile::Game,
            key,
            false,
        ),
        0 <= c < tables.mode@.len() && has_key(tables.mode@[c]@, key) ==> spec_is_configured_hotkey(
            tables,
            Profile::Normal,
            key,
        ) && !spec_can_repeat(tables, Profile::Normal, key, false),
        0 <= c < tables.category@.len() && has_key(tables.category@[c]@, key) ==> spec_is_configured_hotkey(
            tables,
            Profile::Normal,
            key,
        ) && !spec_can_repeat(tables, Profile::Normal, key, false),
        (forall|d: int| 0 <= d < tables.game_category@.len() ==> !has_key(#[trigger] tables.game_category@[d]@, key))
            && (forall|d: int| 0 <= d < tables.game_mode@.len() ==> !has_key(#[trigger] tables.game_mode@[d]@, key))
            ==> !spec_is_configured_hotkey(tables, Profile::Game, key) && spec_can_repeat(
            tables,
            Profile::Game,
            key,
            false,
        ),
        (forall|d: int| 0 <= d < tables.category@.len() ==> !has_key(#[trigger] tables.category@[d]@, key))
            && (forall|d: int| 0 <= d < tables.mode@.len() ==> !has_key(#[trigger] tables.mode@[d]@, key))
            ==> !spec_is_configured_hotkey(tables, Profile::Normal, key) && spec_can_repeat(
            tables,
            Profile::Normal,
            key,
            false,
        ),
{
}

/// A hotkey of the profile in force never repeats, nor does a modifier key.
pub proof fn lemma_hotkeys_never_repeat<V>(tables: HotkeyTables<V>, profile: Profile, key: u64, modifier_key: bool)
    requires
        spec_is_configured_hotkey(tables, profile, key) || modifier_key,
    ensures
        !spec_can_repeat(tables, profile, key, modifier_key),
{
}

} // verus!
