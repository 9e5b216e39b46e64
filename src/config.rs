use vstd::prelude::*;
use vstd::string::StringExecFns;

use abi_stable::std_types::RHashMap;

verus! {

#[verifier::external_type_specification]
#[verifier::external_body]
#[verifier::reject_recursive_types(K)]
#[verifier::reject_recursive_types(V)]
#[verifier::reject_recursive_types(S)]
pub struct ExRHashMap<K, V, S>(RHashMap<K, V, S>);

/// One labelled choice of an enumerated setting.
#[derive(Clone, Debug)]
pub struct EnumEntry {
    pub value: u8,
    pub name: String,
}

impl View for EnumEntry {
    type V = (u8, Seq<char>);

    open spec fn view(&self) -> (u8, Seq<char>) {
        (self.value, self.name@)
    }
}

impl EnumEntry {
    pub fn new(name: &str, value: u8) -> (r: Self)
        ensures
            r@ == (value, name@),
    {
        EnumEntry { value, name: String::from_str(name) }
    }
}

/// A typed configuration value. Floating-point values, and their bounds,
/// are held as their IEEE-754 bit patterns.
#[derive(Clone, Debug)]
pub enum EntryType {
    String { value: String },
    Bool { value: bool },
    Int { value: i64, min: Option<i64>, max: Option<i64> },
    Float { value: u64, min: Option<u64>, max: Option<u64> },
    Enum { value: u8, options: Vec<EnumEntry> },
    Unset,
}

/// What a configuration value holds, as plain mathematical values.
pub enum EntryView {
    Text(Seq<char>),
    Flag(bool),
    /// Value, lower bound, upper bound.
    Int(i64, Option<i64>, Option<i64>),
    /// Bit patterns of the value, the lower bound and the upper bound.
    Float(u64, Option<u64>, Option<u64>),
    /// Selected index, and the options as (index, label) pairs.
    Choice(u8, Seq<(u8, Seq<char>)>),
    Absent,
}

impl View for EntryType {
    type V = EntryView;

    open spec fn view(&self) -> EntryView {
        match self {
            EntryType::String { value } => EntryView::Text(value@),
            EntryType::Bool { value } => EntryView::Flag(*value),
            EntryType::Int { value, min, max } => EntryView::Int(*value, *min, *max),
            EntryType::Float { value, min, max } => EntryView::Float(*value, *min, *max),
            EntryType::Enum { value, options } => EntryView::Choice(
                *value,
                options@.map_values(|o: EnumEntry| o@),
            ),
            EntryType::Unset => EntryView::Absent,
        }
    }
}

impl EntryType {
    /// Index of the variant, in declaration order.
    pub open spec fn spec_variant(&self) -> u32 {
        match self {
            EntryType::String { .. } => 0,
            EntryType::Bool { .. } => 1,
            EntryType::Int { .. } => 2,
            EntryType::Float { .. } => 3,
            EntryType::Enum { .. } => 4,
            EntryType::Unset => 5,
        }
    }

    /// A copy that holds the same value.
    pub fn duplicate(&self) -> (r: Self)
        ensures
            r@ == self@,
    {
        match self {
            EntryType::String { value } => EntryType::String { value: value.clone() },
            EntryType::Bool { value } => EntryType::Bool { value: *value },
            EntryType::Int { value, min, max } => EntryType::Int {
                value: *value,
                min: *min,
                max: *max,
            },
            EntryType::Float { value, min, max } => EntryType::Float {
                value: *value,
                min: *min,
                max: *max,
            },
            EntryType::Enum { value, options } => {
                let mut copied: Vec<EnumEntry> = Vec::new();
                let mut i: usize = 0;
                while i < options.len()
                    invariant
                        i <= options@.len(),
                        copied@.len() == i,
                        forall|j: int| 0 <= j < i ==> copied@[j]@ == options@[j]@,
                    decreases options@.len() - i,
                {
                    let o = &options[i];
                    copied.push(EnumEntry { value: o.value, name: o.name.clone() });
                    i = i + 1;
                }
                assert(copied@.map_values(|o: EnumEntry| o@) =~= options@.map_values(
                    |o: EnumEntry| o@,
                ));
                EntryType::Enum { value: *value, options: copied }
            },
            EntryType::Unset => EntryType::Unset,
        }
    }

    pub fn as_string(&self) -> (r: Option<&str>)
        ensures
            r is Some <==> self is String,
            r matches Some(s) ==> self@ == EntryView::Text(s@),
    {
        match self {
            EntryType::String { value } => Some(value.as_str()),
            _ => None,
        }
    }

    pub fn as_bool(&self) -> (r: Option<bool>)
        ensures
            r == (match self {
                EntryType::Bool { value } => Some(*value),
                _ => None,
            }),
    {
        match self {
            EntryType::Bool { value } => Some(*value),
            _ => None,
        }
    }

    pub fn as_bool_mut(&mut self) -> (r: Option<&mut bool>)
        ensures
            r is Some <==> *old(self) is Bool,
            r matches Some(v) ==> *old(self) == (EntryType::Bool { value: *v }) && *final(self) == (EntryType::Bool { value: *final(v) }),
            r is None ==> *final(self) == *old(self),
    {
        match self {
            EntryType::Bool { value } => Some(value),
            _ => None,
        }
    }

    pub fn as_string_mut(&mut self) -> (r: Option<&mut String>)
        ensures
            r is Some <==> *old(self) is String,
            r matches Some(v) ==> *old(self) == (EntryType::String { value: *v }) && *final(self)
                == (EntryType::String { value: *final(v) }),
            r is None ==> *final(self) == *old(self),
    {
        match self {
            EntryType::String { value } => Some(value),
            _ => None,
        }
    }

    pub fn as_int_mut(&mut self) -> (r: Option<&mut i64>)
        ensures
            r is Some <==> *old(self) is Int,
            r matches Some(v) ==> *old(self) matches EntryType::Int { value, min, max } && *v == value
                && *final(self) == (EntryType::Int { value: *final(v), min, max }),
            r is None ==> *final(self) == *old(self),
    {
        match self {
            EntryType::Int { value, .. } => Some(value),
            _ => None,
        }
    }

    pub fn as_float_bits_mut(&mut self) -> (r: Option<&mut u64>)
        ensures
            r is Some <==> *old(self) is Float,
            r matches Some(v) ==> *old(self) matches EntryType::Float { value, min, max } && *v
                == value && *final(self) == (EntryType::Float { value: *final(v), min, max }),
            r is None ==> *final(self) == *old(self),
    {
        match self {
            EntryType::Float { value, .. } => Some(value),
            _ => None,
        }
    }

    pub fn as_enum_mut(&mut self) -> (r: Option<&mut u8>)
        ensures
            r is Some <==> *old(self) is Enum,
            r matches Some(v) ==> *old(self) matches EntryType::Enum { value, options } && *v == value
                && *final(self) == (EntryType::Enum { value: *final(v), options }),
            r is None ==> *final(self) == *old(self),
    {
        match self {
            EntryType::Enum { value, .. } => Some(value),
            _ => None,
        }
    }

    pub fn as_int(&self) -> (r: Option<i64>)
        ensures
            r == (match self {
                EntryType::Int { value, .. } => Some(*value),
                _ => None,
            }),
    {
        match self {
            EntryType::Int { value, .. } => Some(*value),
            _ => None,
        }
    }

    /// The bit pattern of a floating-point value.
    pub fn as_float_bits(&self) -> (r: Option<u64>)
        ensures
            r == (match self {
                EntryType::Float { value, .. } => Some(*value),
                _ => None,
            }),
    {
        match self {
            EntryType::Float { value, .. } => Some(*value),
            _ => None,
        }
    }

    pub fn as_enum(&self) -> (r: Option<u8>)
        ensures
            r == (match self {
                EntryType::Enum { value, .. } => Some(*value),
                _ => None,
            }),
    {
        match self {
            EntryType::Enum { value, .. } => Some(*value),
            _ => None,
        }
    }

    pub fn variant(&self) -> (r: u32)
        ensures
            r == self.spec_variant(),
    {
        match self {
            EntryType::String { .. } => 0,
            EntryType::Bool { .. } => 1,
            EntryType::Int { .. } => 2,
            EntryType::Float { .. } => 3,
            EntryType::Enum { .. } => 4,
            EntryType::Unset => 5,
        }
    }
}


/// The mapping with no key.
pub open spec fn no_settings() -> Map<Seq<char>, EntryView> {
    Map::empty()
}

impl Default for Config {
    fn default() -> (r: Self)
        ensures
            r@ == no_settings(),
    {
        Config::new()
    }
}

/// What a map of settings holds: each key's value.
pub uninterp spec fn config_entries(m: RHashMap<String, EntryType>) -> Map<Seq<char>, EntryView>;

/// Relies on RHashMap::new: a new map is empty.
#[verifier::external_body]
fn entries_new() -> (r: RHashMap<String, EntryType>)
    ensures
        config_entries(r) == no_settings(),
{
    RHashMap::new()
}

/// Relies on RHashMap::get: the value stored under the key equal to `key`.
#[verifier::external_body]
fn entries_get<'a>(m: &'a RHashMap<String, EntryType>, key: &str) -> (r: Option<&'a EntryType>)
    ensures
        r is Some <==> config_entries(*m).contains_key(key@),
        r matches Some(v) ==> v@ == config_entries(*m)[key@],
{
    m.get(key)
}

/// Relies on RHashMap::get_mut: the value stored under the key equal to
/// `key`, changed in place.
#[verifier::external_body]
fn entries_get_mut<'a>(m: &'a mut RHashMap<String, EntryType>, key: &str) -> (r: Option<
    &'a mut EntryType,
>)
    ensures
        r is Some <==> config_entries(*old(m)).contains_key(key@),
        r matches Some(v) ==> v@ == config_entries(*old(m))[key@] && config_entries(*final(m))
            == config_entries(*old(m)).insert(key@, final(v)@),
        r is None ==> config_entries(*final(m)) == config_entries(*old(m)),
{
    m.get_mut(key)
}

/// Relies on RHashMap::insert: `key` maps to `value` afterwards, in place
/// of any value it had; other keys are untouched.
#[verifier::external_body]
fn entries_insert(m: &mut RHashMap<String, EntryType>, key: String, value: EntryType)
    ensures
        config_entries(*final(m)) == config_entries(*old(m)).insert(key@, value@),
{
    m.insert(key, value);
}

/// Relies on RHashMap::remove: `key` has no value afterwards; other keys
/// are untouched.
#[verifier::external_body]
fn entries_remove(m: &mut RHashMap<String, EntryType>, key: &str)
    ensures
        config_entries(*final(m)) == config_entries(*old(m)).remove(key@),
{
    m.remove(key);
}

/// Relies on RHashMap::is_empty: whether the map holds no entry.
#[verifier::external_body]
fn entries_is_empty(m: &RHashMap<String, EntryType>) -> (r: bool)
    ensures
        r <==> config_entries(*m) == no_settings(),
{
    m.is_empty()
}

/// Relies on RHashMap::keys: each key of the map once, in no particular order.
#[verifier::external_body]
fn entries_keys(m: &RHashMap<String, EntryType>) -> (r: Vec<String>)
    ensures
        forall|i: int, j: int| 0 <= i < j < r@.len() ==> r@[i]@ != r@[j]@,
        forall|i: int| 0 <= i < r@.len() ==> config_entries(*m).contains_key(#[trigger] r@[i]@),
        forall|k: Seq<char>|
            #[trigger] config_entries(*m).contains_key(k) ==> exists|i: int|
                0 <= i < r@.len() && r@[i]@ == k,
{
    m.keys().cloned().collect()
}

/// A store of typed settings under unique string keys. Neither numeric
/// bounds nor enumeration indices are checked: a consumer that needs
/// valid values checks them after reading.
#[derive(Debug)]
pub struct Config {
    entries: RHashMap<String, EntryType>,
}

impl View for Config {
    type V = Map<Seq<char>, EntryView>;

    closed spec fn view(&self) -> Map<Seq<char>, EntryView> {
        config_entries(self.entries)
    }
}

impl Config {
    pub fn new() -> (r: Self)
        ensures
            r@ == Map::<Seq<char>, EntryView>::empty(),
    {
        Config { entries: entries_new() }
    }

    pub fn get(&self, key: &str) -> (r: Option<&EntryType>)
        ensures
            r is Some <==> self@.contains_key(key@),
            r matches Some(v) ==> v@ == self@[key@],
    {
        entries_get(&self.entries, key)
    }

    /// The value of `key`, to change in place.
    pub fn get_mut(&mut self, key: &str) -> (r: Option<&mut EntryType>)
        ensures
            r is Some <==> old(self)@.contains_key(key@),
            r matches Some(v) ==> v@ == old(self)@[key@] && final(self)@ == old(self)@.insert(
                key@,
                final(v)@,
            ),
            r is None ==> final(self)@ == old(self)@,
    {
        entries_get_mut(&mut self.entries, key)
    }

    /// The value of `key` in this store, or else in `defaults`, or else none.
    pub fn get_or_default(&self, key: &str, defaults: &Config) -> (r: Option<EntryType>)
        ensures
            r is Some <==> self@.contains_key(key@) || defaults@.contains_key(key@),
            r matches Some(v) ==> v@ == (if self@.contains_key(key@) {
                self@[key@]
            } else {
                defaults@[key@]
            }),
    {
        match self.get(key) {
            Some(v) => Some(v.duplicate()),
            None => match defaults.get(key) {
                Some(v) => Some(v.duplicate()),
                None => None,
            },
        }
    }

    /// Sets `key` to `value`, in place of any value it had.
    pub fn insert(&mut self, key: String, value: EntryType)
        ensures
            final(self)@ == old(self)@.insert(key@, value@),
    {
        entries_insert(&mut self.entries, key, value);
    }

    /// Drops `key` and its value, if present.
    pub fn remove(&mut self, key: &str)
        ensures
            final(self)@ == old(self)@.remove(key@),
    {
        entries_remove(&mut self.entries, key);
    }

    /// Whether the store holds no entry.
    pub fn empty(&self) -> (r: bool)
        ensures
            r <==> self@ == Map::<Seq<char>, EntryView>::empty(),
    {
        entries_is_empty(&self.entries)
    }

    /// The entries, each key once, in no particular order.
    pub fn iter(&self) -> (r: Vec<(String, EntryType)>)
        ensures
            forall|i: int, j: int| 0 <= i < j < r@.len() ==> r@[i].0@ != r@[j].0@,
            forall|i: int|
                0 <= i < r@.len() ==> self@.contains_key(#[trigger] r@[i].0@) && self@[r@[i].0@]
                    == r@[i].1@,
            forall|k: Seq<char>|
                #[trigger] self@.contains_key(k) ==> exists|i: int| 0 <= i < r@.len() && r@[i].0@ == k,
    {
        let keys = entries_keys(&self.entries);
        let mut out: Vec<(String, EntryType)> = Vec::new();
        let mut i: usize = 0;
        while i < keys.len()
            invariant
                i <= keys@.len(),
                out@.len() == i,
                forall|a: int, b: int| 0 <= a < b < keys@.len() ==> keys@[a]@ != keys@[b]@,
                forall|a: int| 0 <= a < keys@.len() ==> self@.contains_key(#[trigger] keys@[a]@),
                forall|a: int|
                    0 <= a < i ==> #[trigger] out@[a].0@ == keys@[a]@ && self@[keys@[a]@] == out@[a].1@,
            decreases keys@.len() - i,
        {
            let k = keys[i].clone();
            match self.get(k.as_str()) {
                Some(v) => out.push((k, v.duplicate())),
                None => {
                    assert(false);
                },
            }
            i = i + 1;
        }
        assert forall|k: Seq<char>| #[trigger] self@.contains_key(k) implies exists|a: int|
            0 <= a < out@.len() && out@[a].0@ == k by {
            let a = choose|a: int| 0 <= a < keys@.len() && keys@[a]@ == k;
            assert(out@[a].0@ == k);
        }
        out
    }
}

} // verus!
