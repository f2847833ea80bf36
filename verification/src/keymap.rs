use vstd::prelude::*;
use std::collections::HashMap;
use crate::modifiers::ModifierSnapshot;

verus! {

broadcast use vstd::std_specs::hash::group_hash_axioms;

/// One row of the configuration table: a physical source character and the
/// two substitutes it stands for, one per letter case.
#[derive(Clone, Copy)]
pub struct CharacterEntry {
    pub source: char,
    pub lowercase_substitute: char,
    pub uppercase_substitute: char,
}

impl CharacterEntry {
    pub fn new(source: char, lowercase_substitute: char, uppercase_substitute: char) -> (r:
        CharacterEntry)
        ensures
            r.source == source,
            r.lowercase_substitute == lowercase_substitute,
            r.uppercase_substitute == uppercase_substitute,
    {
        CharacterEntry { source, lowercase_substitute, uppercase_substitute }
    }
}

/// The bidirectional character table: for each source character, a lowercase
/// and an uppercase substitute. Keys are stored as Unicode scalar values so
/// the hash tables carry an exact map model. Immutable after construction.
pub struct KeyMapper {
    lowercase_map: HashMap<u32, char>,
    uppercase_map: HashMap<u32, char>,
}

impl KeyMapper {
    /// The lowercase-substitute table, as a map from the source character's
    /// scalar value.
    pub closed spec fn lower(self) -> Map<u32, char> {
        self.lowercase_map@
    }

    /// The uppercase-substitute table, as a map from the source character's
    /// scalar value.
    pub closed spec fn upper(self) -> Map<u32, char> {
        self.uppercase_map@
    }

    pub fn new() -> (r: KeyMapper)
        ensures
            r.lower() == Map::<u32, char>::empty(),
            r.upper() == Map::<u32, char>::empty(),
    {
        KeyMapper { lowercase_map: HashMap::new(), uppercase_map: HashMap::new() }
    }

    /// Registers both substitutes for `source`. A source already present is
    /// overwritten: the last entry wins.
    pub fn add_mapping(&mut self, source: char, mapped_lower: char, mapped_upper: char)
        ensures
            final(self).lower() == old(self).lower().insert(source as u32, mapped_lower),
            final(self).upper() == old(self).upper().insert(source as u32, mapped_upper),
    {
        self.lowercase_map.insert(source as u32, mapped_lower);
        self.uppercase_map.insert(source as u32, mapped_upper);
    }

    /// Whether `source` already has an entry; lets a caller surface a
    /// duplicate-configuration warning before the overwrite happens.
    pub fn contains_source(&self, source: char) -> (r: bool)
        ensures
            r == self.lower().contains_key(source as u32),
    {
        self.lowercase_map.contains_key(&(source as u32))
    }

    pub open spec fn spec_lookup(self, source: char, want_uppercase: bool) -> Option<char> {
        let m = if want_uppercase {
            self.upper()
        } else {
            self.lower()
        };
        if m.contains_key(source as u32) {
            Some(m[source as u32])
        } else {
            None
        }
    }

    /// The uppercase substitute if `want_uppercase`, else the lowercase one;
    /// nothing when `source` is absent from the table.
    pub fn lookup(&self, source: char, want_uppercase: bool) -> (r: Option<char>)
        ensures
            r == self.spec_lookup(source, want_uppercase),
    {
        let found = if want_uppercase {
            self.uppercase_map.get(&(source as u32))
        } else {
            self.lowercase_map.get(&(source as u32))
        };
        match found {
            Some(c) => Some(*c),
            None => None,
        }
    }

    /// The full remapping decision for one key, as a value: nothing when
    /// mapping is disabled or a strong modifier is held; otherwise the
    /// substitute selected by the shift/caps-lock interaction, where exactly
    /// one of the two engaged means uppercase.
    pub open spec fn spec_map_key(
        self,
        key: char,
        is_shift_pressed: bool,
        mods: ModifierSnapshot,
        enabled: bool,
    ) -> Option<char> {
        if !enabled || mods.strong_modifier_down() {
            None
        } else {
            self.spec_lookup(key, is_shift_pressed != mods.caps_lock_on)
        }
    }

    /// Decides whether `key` is substituted, given the shift state, the
    /// modifier snapshot and the current enabled flag. Pure: reads nothing
    /// but its arguments, never fails; an absent mapping is a normal miss.
    pub fn map_key(
        &self,
        key: char,
        is_shift_pressed: bool,
        mods: &ModifierSnapshot,
        enabled: bool,
    ) -> (r: Option<char>)
        ensures
            r == self.spec_map_key(key, is_shift_pressed, *mods, enabled),
    {
        if !enabled || mods.is_any_strong_modifier_down() {
            return None;
        }
        let is_uppercase = is_shift_pressed ^ mods.caps_lock_on;
        self.lookup(key, is_uppercase)
    }
}

/// The lowercase table that an ordered entry sequence builds: entries are
/// inserted in order, so a later entry overwrites an earlier one with the
/// same source (last write wins).
pub open spec fn table_lower(table: Seq<CharacterEntry>) -> Map<u32, char>
    decreases table.len(),
{
    if table.len() == 0 {
        Map::empty()
    } else {
        table_lower(table.drop_last()).insert(
            table.last().source as u32,
            table.last().lowercase_substitute,
        )
    }
}

/// The uppercase table that an ordered entry sequence builds, last write
/// winning as for the lowercase one.
pub open spec fn table_upper(table: Seq<CharacterEntry>) -> Map<u32, char>
    decreases table.len(),
{
    if table.len() == 0 {
        Map::empty()
    } else {
        table_upper(table.drop_last()).insert(
            table.last().source as u32,
            table.last().uppercase_substitute,
        )
    }
}

/// Whether two entries of the table share a source character.
pub open spec fn table_has_duplicate(table: Seq<CharacterEntry>) -> bool {
    exists|i: int, j: int|
        0 <= i < j < table.len() && (#[trigger] table[i]).source == (#[trigger] table[j]).source
}

/// A key is in the built lowercase table exactly when some entry carries it
/// as its source.
pub proof fn lemma_table_lower_dom(table: Seq<CharacterEntry>)
    ensures
        forall|k: u32|
            #[trigger] table_lower(table).contains_key(k) <==> exists|i: int|
                0 <= i < table.len() && (#[trigger] table[i]).source as u32 == k,
    decreases table.len(),
{
    if table.len() == 0 {
    } else {
        let prefix = table.drop_last();
        lemma_table_lower_dom(prefix);
        assert forall|k: u32| #[trigger] table_lower(table).contains_key(k) implies exists|i: int|
            0 <= i < table.len() && (#[trigger] table[i]).source as u32 == k by {
            if k == table.last().source as u32 {
                assert(table[table.len() - 1].source as u32 == k);
            } else {
                assert(table_lower(prefix).contains_key(k));
                let i = choose|i: int| 0 <= i < prefix.len() && (#[trigger] prefix[i]).source as u32
                    == k;
                assert(prefix[i] == table[i]);
                assert(table[i].source as u32 == k);
            }
        }
        assert forall|k: u32|
            exists|i: int| 0 <= i < table.len() && (#[trigger] table[i]).source as u32
                == k implies #[trigger] table_lower(table).contains_key(k) by {
            let i = choose|i: int| 0 <= i < table.len() && (#[trigger] table[i]).source as u32 == k;
            if i < table.len() - 1 {
                assert(prefix[i].source as u32 == k);
                assert(table_lower(prefix).contains_key(k));
            }
        }
    }
}

impl KeyMapper {
    /// Builds the character map from the whole configuration table, entries
    /// applied in order so that the last one wins on a repeated source. The
    /// second component reports whether any repeated source was seen, so the
    /// caller can surface a configuration warning instead of silently
    /// accepting the overwrite.
    pub fn build(table: &Vec<CharacterEntry>) -> (r: (KeyMapper, bool))
        ensures
            r.0.lower() == table_lower(table@),
            r.0.upper() == table_upper(table@),
            r.1 == table_has_duplicate(table@),
    {
        let mut mapper = KeyMapper::new();
        let mut duplicate_seen = false;
        let n = table.len();
        let mut i: usize = 0;
        while i < n
            invariant
                i <= n,
                n == table@.len(),
                mapper.lower() == table_lower(table@.take(i as int)),
                mapper.upper() == table_upper(table@.take(i as int)),
                duplicate_seen == table_has_duplicate(table@.take(i as int)),
            decreases n - i,
        {
            let ghost t0 = table@.take(i as int);
            let entry = table[i];
            let repeated = mapper.contains_source(entry.source);
            proof {
                lemma_table_lower_dom(t0);
            }
            mapper.add_mapping(
                entry.source,
                entry.lowercase_substitute,
                entry.uppercase_substitute,
            );
            duplicate_seen = duplicate_seen || repeated;
            proof {
                let t1 = table@.take(i + 1);
                assert(t1.drop_last() =~= t0);
                assert(t1.last() == table@[i as int]);
                if repeated {
                    let k = choose|k: int| 0 <= k < t0.len() && (#[trigger] t0[k]).source as u32
                        == entry.source as u32;
                    assert(t1[k].source == t1[i as int].source);
                    assert(table_has_duplicate(t1));
                }
                if table_has_duplicate(t0) {
                    let (a, b) = choose|a: int, b: int|
                        0 <= a < b < t0.len()
                        && (#[trigger] t0[a]).source == (#[trigger] t0[b]).source;
                    assert(t1[a].source == t1[b].source);
                    assert(table_has_duplicate(t1));
                }
                if table_has_duplicate(t1) && !table_has_duplicate(t0) && !repeated {
                    let (a, b) = choose|a: int, b: int|
                        0 <= a < b < t1.len()
                        && (#[trigger] t1[a]).source == (#[trigger] t1[b]).source;
                    if b < i as int {
                        assert(t0[a].source == t0[b].source);
                        assert(false);
                    } else {
                        assert(t0[a].source as u32 == entry.source as u32);
                        assert(false);
                    }
                }
            }
            i = i + 1;
        }
        proof {
            assert(table@.take(n as int) =~= table@);
        }
        (mapper, duplicate_seen)
    }
}

/// Shorthand for one table row.
pub open spec fn entry(source: char, lower: char, upper: char) -> CharacterEntry {
    CharacterEntry { source, lowercase_substitute: lower, uppercase_substitute: upper }
}

/// The built-in configuration table: the Latin letters and digits each get
/// a runic (or symbolic) lowercase and uppercase substitute.
pub open spec fn default_table() -> Seq<CharacterEntry> {
    seq![
        entry('A', 'ᚨ', 'ᚪ'),
        entry('B', 'ᛒ', 'ᛔ'),
        entry('C', 'ᚲ', 'ᛈ'),
        entry('D', 'ᚦ', 'ᚣ'),
        entry('E', 'ᛅ', 'ᚯ'),
        entry('F', 'ᚠ', 'ᚡ'),
        entry('G', 'ᛞ', 'ᛥ'),
        entry('H', 'ᚺ', 'ᚻ'),
        entry('I', 'ᛁ', 'ᛂ'),
        entry('J', 'ᚴ', 'ᚵ'),
        entry('K', 'ᛘ', 'ᛯ'),
        entry('L', 'ᛐ', 'ᛚ'),
        entry('M', 'ᛖ', 'ᛗ'),
        entry('N', 'ᚾ', 'ᚬ'),
        entry('O', 'ᛜ', 'ᛟ'),
        entry('P', 'ᛩ', 'ᚹ'),
        entry('Q', 'ᛶ', 'ᚿ'),
        entry('R', 'ᛃ', 'ᚱ'),
        entry('S', 'ᛋ', 'ᛊ'),
        entry('T', 'ᛄ', 'ᛏ'),
        entry('U', 'ᚢ', 'ᚤ'),
        entry('V', 'ᛡ', 'ᛤ'),
        entry('W', 'ᚳ', 'ᛠ'),
        entry('X', '×', 'ᚷ'),
        entry('Y', 'ᛣ', 'ᛉ'),
        entry('Z', 'ᛇ', 'ᛢ'),
        entry('1', '1', '𖤍'),
        entry('2', '2', '♅'),
        entry('3', '3', '↟'),
        entry('4', '4', '↡'),
        entry('5', '5', '↠'),
        entry('6', '6', '↞'),
        entry('7', '7', '𒌐'),
        entry('8', '8', '𖤓'),
        entry('9', '9', '☽'),
        entry('0', '0', '🕈'),
        entry('À', 'ⴵ', '∞'),
    ]
}

/// The built-in configuration table as a vector, row for row.
pub fn default_table_vec() -> (r: Vec<CharacterEntry>)
    ensures
        r@ == default_table(),
{
    let mut v: Vec<CharacterEntry> = Vec::new();
    v.push(CharacterEntry::new('A', 'ᚨ', 'ᚪ'));
    v.push(CharacterEntry::new('B', 'ᛒ', 'ᛔ'));
    v.push(CharacterEntry::new('C', 'ᚲ', 'ᛈ'));
    v.push(CharacterEntry::new('D', 'ᚦ', 'ᚣ'));
    v.push(CharacterEntry::new('E', 'ᛅ', 'ᚯ'));
    v.push(CharacterEntry::new('F', 'ᚠ', 'ᚡ'));
    v.push(CharacterEntry::new('G', 'ᛞ', 'ᛥ'));
    v.push(CharacterEntry::new('H', 'ᚺ', 'ᚻ'));
    v.push(CharacterEntry::new('I', 'ᛁ', 'ᛂ'));
    v.push(CharacterEntry::new('J', 'ᚴ', 'ᚵ'));
    v.push(CharacterEntry::new('K', 'ᛘ', 'ᛯ'));
    v.push(CharacterEntry::new('L', 'ᛐ', 'ᛚ'));
    v.push(CharacterEntry::new('M', 'ᛖ', 'ᛗ'));
    v.push(CharacterEntry::new('N', 'ᚾ', 'ᚬ'));
    v.push(CharacterEntry::new('O', 'ᛜ', 'ᛟ'));
    v.push(CharacterEntry::new('P', 'ᛩ', 'ᚹ'));
    v.push(CharacterEntry::new('Q', 'ᛶ', 'ᚿ'));
    v.push(CharacterEntry::new('R', 'ᛃ', 'ᚱ'));
    v.push(CharacterEntry::new('S', 'ᛋ', 'ᛊ'));
    v.push(CharacterEntry::new('T', 'ᛄ', 'ᛏ'));
    v.push(CharacterEntry::new('U', 'ᚢ', 'ᚤ'));
    v.push(CharacterEntry::new('V', 'ᛡ', 'ᛤ'));
    v.push(CharacterEntry::new('W', 'ᚳ', 'ᛠ'));
    v.push(CharacterEntry::new('X', '×', 'ᚷ'));
    v.push(CharacterEntry::new('Y', 'ᛣ', 'ᛉ'));
    v.push(CharacterEntry::new('Z', 'ᛇ', 'ᛢ'));
    v.push(CharacterEntry::new('1', '1', '𖤍'));
    v.push(CharacterEntry::new('2', '2', '♅'));
    v.push(CharacterEntry::new('3', '3', '↟'));
    v.push(CharacterEntry::new('4', '4', '↡'));
    v.push(CharacterEntry::new('5', '5', '↠'));
    v.push(CharacterEntry::new('6', '6', '↞'));
    v.push(CharacterEntry::new('7', '7', '𒌐'));
    v.push(CharacterEntry::new('8', '8', '𖤓'));
    v.push(CharacterEntry::new('9', '9', '☽'));
    v.push(CharacterEntry::new('0', '0', '🕈'));
    v.push(CharacterEntry::new('À', 'ⴵ', '∞'));
    proof {
        assert(v@ =~= default_table());
    }
    v
}

/// Builds the key mapper from the built-in table.
pub fn generate_mapping() -> (r: KeyMapper)
    ensures
        r.lower() == table_lower(default_table()),
        r.upper() == table_upper(default_table()),
{
    let table = default_table_vec();
    let built = KeyMapper::build(&table);
    built.0
}

/// For every source present in both tables, with mapping enabled and no
/// strong modifier held: the decision yields the uppercase substitute iff
/// exactly one of {shift held, caps engaged} is true, and the lowercase
/// substitute iff both or neither are true.
pub proof fn lemma_case_selection(
    m: KeyMapper,
    key: char,
    is_shift_pressed: bool,
    mods: ModifierSnapshot,
)
    requires
        !mods.strong_modifier_down(),
        m.lower().contains_key(key as u32),
        m.upper().contains_key(key as u32),
    ensures
        is_shift_pressed != mods.caps_lock_on ==> m.spec_map_key(key, is_shift_pressed, mods, true)
            == Some(m.upper()[key as u32]),
        is_shift_pressed == mods.caps_lock_on ==> m.spec_map_key(key, is_shift_pressed, mods, true)
            == Some(m.lower()[key as u32]),
{
}

/// Holding any strong modifier (Ctrl, Alt, either Windows key) suppresses
/// the substitution for every key, whatever the shift, caps-lock and
/// enabled state.
pub proof fn lemma_strong_modifier_suppresses(
    m: KeyMapper,
    key: char,
    is_shift_pressed: bool,
    mods: ModifierSnapshot,
    enabled: bool,
)
    requires
        mods.strong_modifier_down(),
    ensures
        m.spec_map_key(key, is_shift_pressed, mods, enabled) is None,
{
}

/// With mapping disabled every key passes through undecided: the decision
/// yields nothing.
pub proof fn lemma_disabled_suppresses(
    m: KeyMapper,
    key: char,
    is_shift_pressed: bool,
    mods: ModifierSnapshot,
)
    ensures
        m.spec_map_key(key, is_shift_pressed, mods, false) is None,
{
}

} // verus!
