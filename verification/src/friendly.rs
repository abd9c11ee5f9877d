//! Friendly monitor names, keyed by the monitor's device path.

use vstd::prelude::*;

verus! {

/// Mapping of `(monitorDevicePath, monitorFriendlyDeviceName)` pairs, held in
/// a `hashbrown::HashMap<String, String>`.
#[verifier::external_body]
pub struct FriendlyNames {
    map: hashbrown::HashMap<String, String>,
}

/// What a `FriendlyNames` map holds: device path to friendly name.
pub uninterp spec fn friendly_names_contents(names: FriendlyNames) -> Map<Seq<char>, Seq<char>>;

/// The mapping that holds no name.
pub open spec fn no_names() -> Map<Seq<char>, Seq<char>> {
    Map::empty()
}

/// `hashbrown::HashMap::new`: the map starts empty.
#[verifier::external_body]
fn names_new() -> (created: FriendlyNames)
    ensures
        friendly_names_contents(created) == no_names(),
{
    FriendlyNames { map: hashbrown::HashMap::new() }
}

/// `hashbrown::HashMap::insert`: afterwards the key maps to the value and
/// every other key keeps its value; keys are compared as strings.
#[verifier::external_body]
fn names_insert(names: &mut FriendlyNames, device_path: String, friendly: String)
    ensures
        friendly_names_contents(*final(names)) == friendly_names_contents(*old(names)).insert(
            device_path@,
            friendly@,
        ),
{
    names.map.insert(device_path, friendly);
}

/// `hashbrown::HashMap::get`, with the value found cloned: a value exactly
/// when the key is present, and then the value the key maps to.
#[verifier::external_body]
fn names_get(names: &FriendlyNames, device_path: &String) -> (r: Option<String>)
    ensures
        r is Some <==> friendly_names_contents(*names).contains_key(device_path@),
        r matches Some(v) ==> v@ == friendly_names_contents(*names)[device_path@],
{
    match names.map.get(device_path) {
        Some(v) => Some(v.clone()),
        None => None,
    }
}

impl FriendlyNames {
    /// An empty mapping.
    pub fn new() -> (r: Self)
        ensures
            friendly_names_contents(r) == no_names(),
    {
        names_new()
    }

    /// The friendly name recorded for `device_path`, if any.
    pub fn get(&self, device_path: &String) -> (r: Option<String>)
        ensures
            r is Some <==> friendly_names_contents(*self).contains_key(device_path@),
            r matches Some(v) ==> v@ == friendly_names_contents(*self)[device_path@],
    {
        names_get(self, device_path)
    }
}

/// A UTF-16 high (leading) surrogate.
pub open spec fn is_high_surrogate(u: u16) -> bool {
    0xD800 <= u <= 0xDBFF
}

/// A UTF-16 low (trailing) surrogate.
pub open spec fn is_low_surrogate(u: u16) -> bool {
    0xDC00 <= u <= 0xDFFF
}

/// The character a surrogate pair encodes.
pub open spec fn pair_char(high: u16, low: u16) -> char {
    (0x1_0000 + (high - 0xD800) * 0x400 + (low - 0xDC00)) as char
}

/// UTF-16 decoding with U+FFFD in place of every unpaired surrogate: a high
/// surrogate followed by a low one gives the character they encode, any
/// other surrogate gives U+FFFD, and every other unit is its own character.
pub open spec fn utf16_lossy(units: Seq<u16>) -> Seq<char>
    decreases units.len(),
{
    if units.len() == 0 {
        Seq::empty()
    } else if units.len() >= 2 && is_high_surrogate(units[0]) && is_low_surrogate(units[1]) {
        seq![pair_char(units[0], units[1])] + utf16_lossy(units.subrange(2, units.len() as int))
    } else if is_high_surrogate(units[0]) || is_low_surrogate(units[0]) {
        seq!['\u{FFFD}'] + utf16_lossy(units.drop_first())
    } else {
        seq![units[0] as char] + utf16_lossy(units.drop_first())
    }
}

/// `String::from_utf16_lossy`: decodes UTF-16, with U+FFFD in place of each
/// unpaired surrogate.
#[verifier::external_body]
fn decode_utf16_lossy(units: &[u16]) -> (s: String)
    ensures
        s@ == utf16_lossy(units@),
{
    String::from_utf16_lossy(units)
}

/// Decode UTF-16 code units as text, with U+FFFD in place of each unpaired
/// surrogate.
pub fn string_from_utf16_lossy(units: &[u16]) -> (s: String)
    ensures
        s@ == utf16_lossy(units@),
        (s@.len() == 0) == (units@.len() == 0),
{
    decode_utf16_lossy(units)
}

/// Text that consists of units below `0x80` reads as those units.
pub proof fn law_ascii_reads_as_itself(units: Seq<u16>)
    requires
        forall|i: int| 0 <= i < units.len() ==> units[i] < 0x80,
    ensures
        utf16_lossy(units).len() == units.len(),
        forall|i: int| 0 <= i < units.len() ==> #[trigger] utf16_lossy(units)[i] == units[i] as char,
    decreases units.len(),
{
    if units.len() > 0 {
        let rest = units.drop_first();
        law_ascii_reads_as_itself(rest);
        assert forall|i: int| 0 <= i < units.len() implies #[trigger] utf16_lossy(units)[i] == units[i]
            as char by {
            if i > 0 {
                assert(utf16_lossy(units)[i] == utf16_lossy(rest)[i - 1]);
                assert(rest[i - 1] == units[i]);
            }
        }
    }
}

/// Text decoded from units that do not end in NUL does not end in NUL.
pub proof fn law_text_ends_as_its_units(units: Seq<u16>)
    requires
        units.len() > 0,
        units.last() != 0,
    ensures
        utf16_lossy(units).len() > 0,
        utf16_lossy(units).last() != '\0',
    decreases units.len(),
{
    if units.len() >= 2 && is_high_surrogate(units[0]) && is_low_surrogate(units[1]) {
        let rest = units.subrange(2, units.len() as int);
        if rest.len() > 0 {
            assert(rest.last() == units.last());
            law_text_ends_as_its_units(rest);
        } else {
            let c = pair_char(units[0], units[1]);
            assert(c as int >= 0x1_0000);
            assert(utf16_lossy(rest).len() == 0);
            assert(utf16_lossy(units).last() == c);
        }
    } else {
        let rest = units.drop_first();
        if rest.len() > 0 {
            assert(rest.last() == units.last());
            law_text_ends_as_its_units(rest);
        } else {
            assert(utf16_lossy(rest).len() == 0);
            assert(units[0] == units.last());
        }
    }
}

/// The code units without the NUL padding at their end.
pub open spec fn without_trailing_nuls(s: Seq<u16>) -> Seq<u16>
    decreases s.len(),
{
    if s.len() > 0 && s.last() == 0 {
        without_trailing_nuls(s.drop_last())
    } else {
        s
    }
}

/// Drop the NUL code units at the end of a fixed-size wide-string buffer.
pub fn trim(wide: &[u16]) -> (r: &[u16])
    ensures
        r@ == without_trailing_nuls(wide@),
{
    let mut n = wide.len();
    assert(wide@.subrange(0, n as int) =~= wide@);
    while n > 0 && wide[n - 1] == 0
        invariant
            n <= wide@.len(),
            without_trailing_nuls(wide@) == without_trailing_nuls(wide@.subrange(0, n as int)),
        decreases n,
    {
        assert(wide@.subrange(0, n as int).drop_last() =~= wide@.subrange(0, n - 1));
        n = n - 1;
    }
    &wide[0..n]
}

/// The text of a NUL-padded wide-string buffer.
pub open spec fn wide_text(wide: Seq<u16>) -> Seq<char> {
    utf16_lossy(without_trailing_nuls(wide))
}

/// Decode a NUL-padded wide-string buffer.
pub fn wstr_to_string(wide: &[u16]) -> (s: String)
    ensures
        s@ == wide_text(wide@),
        (s@.len() == 0) == (without_trailing_nuls(wide@).len() == 0),
{
    let wide = trim(wide);
    string_from_utf16_lossy(wide)
}

/// One display target as `DisplayConfigGetDeviceInfo` describes it: the
/// status of the call and the two NUL-padded names it filled in.
pub struct TargetName {
    pub status: i32,
    pub monitor_device_path: Vec<u16>,
    pub monitor_friendly_device_name: Vec<u16>,
}

/// The mapping built from the targets, in order: a target whose query
/// failed, or whose device path is empty, adds nothing; a later target
/// overrides an earlier one with the same device path.
pub open spec fn names_of_targets(targets: Seq<TargetName>) -> Map<Seq<char>, Seq<char>>
    decreases targets.len(),
{
    if targets.len() == 0 {
        no_names()
    } else {
        let before = names_of_targets(targets.drop_last());
        let t = targets.last();
        let path = wide_text(t.monitor_device_path@);
        if t.status != 0 || path.len() == 0 {
            before
        } else {
            before.insert(path, wide_text(t.monitor_friendly_device_name@))
        }
    }
}

/// Build the mapping of device paths to friendly names from the targets of
/// the active display paths.
pub fn friendly_names_from_targets(targets: &Vec<TargetName>) -> (r: FriendlyNames)
    ensures
        friendly_names_contents(r) == names_of_targets(targets@),
{
    let mut mapping = FriendlyNames::new();
    let n = targets.len();
    assert(targets@.subrange(0, 0) =~= Seq::<TargetName>::empty());
    for i in 0..n
        invariant
            n == targets@.len(),
            friendly_names_contents(mapping) == names_of_targets(targets@.subrange(0, i as int)),
    {
        let t = &targets[i];
        assert(targets@.subrange(0, i + 1).drop_last() =~= targets@.subrange(0, i as int));
        assert(targets@.subrange(0, i + 1).last() == targets@[i as int]);
        if t.status == 0 {
            let device_path = wstr_to_string(t.monitor_device_path.as_slice());
            let friendly = wstr_to_string(t.monitor_friendly_device_name.as_slice());
            if !device_path.as_str().is_empty() {
                names_insert(&mut mapping, device_path, friendly);
            }
        }
    }
    assert(targets@.subrange(0, n as int) =~= targets@);
    mapping
}


/// Trimming removes exactly the NUL code units at the end: what is left is a
/// prefix of the buffer that does not end in NUL, and everything after it is NUL.
pub proof fn law_trim_drops_only_padding(s: Seq<u16>)
    ensures
        without_trailing_nuls(s).len() <= s.len(),
        without_trailing_nuls(s) == s.subrange(0, without_trailing_nuls(s).len() as int),
        without_trailing_nuls(s).len() == 0 || without_trailing_nuls(s).last() != 0,
        forall|j: int| without_trailing_nuls(s).len() <= j < s.len() ==> s[j] == 0,
    decreases s.len(),
{
    if s.len() > 0 && s.last() == 0 {
        let t = s.drop_last();
        law_trim_drops_only_padding(t);
        let n = without_trailing_nuls(t).len() as int;
        assert(t.subrange(0, n) =~= s.subrange(0, n));
        assert forall|j: int| n <= j < s.len() implies s[j] == 0 by {
            if j < t.len() {
                assert(s[j] == t[j]);
            }
        }
    } else {
        assert(s.subrange(0, s.len() as int) =~= s);
    }
}

/// Every device path in the mapping is non-empty and comes from a target
/// whose query succeeded.
pub proof fn law_names_come_from_successful_targets(targets: Seq<TargetName>)
    ensures
        forall|path: Seq<char>|
            #[trigger] names_of_targets(targets).contains_key(path) ==> {
                &&& path.len() > 0
                &&& exists|i: int|
                    0 <= i < targets.len() && (#[trigger] targets[i]).status == 0 && wide_text(
                        targets[i].monitor_device_path@,
                    ) == path
            },
    decreases targets.len(),
{
    if targets.len() > 0 {
        let t = targets.drop_last();
        law_names_come_from_successful_targets(t);
        assert forall|path: Seq<char>|
            #[trigger] names_of_targets(targets).contains_key(path) implies {
                &&& path.len() > 0
                &&& exists|i: int|
                    0 <= i < targets.len() && (#[trigger] targets[i]).status == 0 && wide_text(
                        targets[i].monitor_device_path@,
                    ) == path
            } by {
            let l = targets.len() - 1;
            if names_of_targets(t).contains_key(path) {
                let i = choose|i: int|
                    0 <= i < t.len() && (#[trigger] t[i]).status == 0 && wide_text(
                        t[i].monitor_device_path@,
                    ) == path;
                assert(targets[i] == t[i]);
            } else {
                assert(targets[l] == targets.last());
            }
        }
    }
}

/// No device path in the mapping ends in NUL: the padding of the buffers it
/// was read from is gone.
pub proof fn law_keys_do_not_end_in_nul(targets: Seq<TargetName>)
    ensures
        forall|path: Seq<char>|
            #[trigger] names_of_targets(targets).contains_key(path) ==> path.len() > 0 && path.last()
                != '\0',
{
    law_names_come_from_successful_targets(targets);
    assert forall|path: Seq<char>| #[trigger] names_of_targets(targets).contains_key(path) implies path.len()
        > 0 && path.last() != '\0' by {
        let i = choose|i: int|
            0 <= i < targets.len() && (#[trigger] targets[i]).status == 0 && wide_text(
                targets[i].monitor_device_path@,
            ) == path;
        let units = without_trailing_nuls(targets[i].monitor_device_path@);
        law_trim_drops_only_padding(targets[i].monitor_device_path@);
        if units.len() > 0 {
            law_text_ends_as_its_units(units);
        }
    }
}

} // verus!
