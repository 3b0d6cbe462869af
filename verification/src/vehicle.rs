//! What the dashboard knows of a vehicle, and the lookup of a vehicle by name.
use vstd::prelude::*;
use crate::text::text_is;
use vstd::string::StrSliceExecFns;
use vstd::utf8::is_ascii_chars;

verus! {

/// A vehicle of the account as the vehicle list describes it.
#[derive(Clone, Debug)]
pub struct VehicleSummary {
    pub id: u64,
    pub vin: String,
    pub display_name: String,
    /// The vehicle's connection state, such as `online` or `asleep`.
    pub state: String,
}

/// Open (non-zero) or closed (zero) state of each door, trunk and window.
#[derive(Clone, Copy, Debug, PartialEq, Eq, Structural)]
pub struct Openings {
    pub rear_trunk: i64,
    pub front_trunk: i64,
    pub passenger_front_door: i64,
    pub passenger_rear_door: i64,
    pub driver_front_door: i64,
    pub driver_rear_door: i64,
    pub passenger_front_window: i64,
    pub passenger_rear_window: i64,
    pub driver_front_window: i64,
    pub driver_rear_window: i64,
}

/// A snapshot of a vehicle's data, with distances already in kilometres and
/// times in whole minutes.
#[derive(Clone, Debug)]
pub struct VehicleData {
    pub car_version: String,
    pub odometer_km: i32,
    /// State of charge, in percent.
    pub battery_level: u32,
    pub battery_range_km: i32,
    /// Such as `Disconnected`, `Charging` or `Complete`.
    pub charging_state: String,
    pub minutes_to_full_charge: i32,
    /// The gear, where the vehicle reports one (`P`, `D`, `R`, `N`).
    pub shift_state: Option<String>,
    pub speed_km: i32,
    pub locked: bool,
    pub is_auto_conditioning_on: bool,
    pub openings: Openings,
}

/// Whether the vehicle is awake and reachable.
pub open spec fn is_online_spec(v: VehicleSummary) -> bool {
    v.state@ == "online"@
}

/// Whether the vehicle is awake and reachable.
pub fn is_online(v: &VehicleSummary) -> (r: bool)
    ensures
        r == is_online_spec(*v),
        r == (v.state@ == "online"@),
{
    text_is(v.state.as_str(), "online")
}

/// What `str::to_lowercase` gives for a text.
pub uninterp spec fn lowercase(s: Seq<char>) -> Seq<char>;

/// `c` with an ASCII capital letter turned into its small letter, as a code.
pub open spec fn ascii_fold(c: char) -> int {
    if 'A' <= c && c <= 'Z' {
        (c as int) + 32
    } else {
        c as int
    }
}

/// Whether two texts are equal once ASCII capitals are made small.
pub open spec fn same_ignoring_ascii_case(a: Seq<char>, b: Seq<char>) -> bool {
    &&& a.len() == b.len()
    &&& forall|i: int| 0 <= i < a.len() ==> ascii_fold(#[trigger] a[i]) == ascii_fold(b[i])
}

/// Calls `str::to_lowercase`; the result is its lowercase mapping of `s`,
/// named `lowercase` and not spelt out in general. For an ASCII text the
/// documentation fixes it: each capital letter becomes its small letter and
/// every other character stays.
#[verifier::external_body]
fn lowercase_text(s: &str) -> (r: String)
    ensures
        r@ == lowercase(s@),
        is_ascii_chars(s@) ==> r@.len() == s@.len(),
        is_ascii_chars(s@) ==> forall|i: int| 0 <= i < s@.len() ==> (#[trigger] r@[i]) as int == ascii_fold(s@[i]),
{
    s.to_lowercase()
}

/// The first position at which `keys` holds `target`, if any.
pub fn first_match(keys: &Vec<String>, target: &String) -> (r: Option<usize>)
    ensures
        match r {
            Some(i) => {
                &&& i < keys@.len()
                &&& keys@[i as int]@ == target@
                &&& forall|j: int| 0 <= j < i ==> keys@[j]@ != target@
            },
            None => forall|j: int| 0 <= j < keys@.len() ==> keys@[j]@ != target@,
        },
{
    let mut i: usize = 0;
    while i < keys.len()
        invariant
            i <= keys@.len(),
            forall|j: int| 0 <= j < i ==> keys@[j]@ != target@,
        decreases keys@.len() - i,
    {
        if keys[i] == *target {
            return Some(i);
        }
        i = i + 1;
    }
    None
}

/// Whether two ASCII texts are equal once ASCII capitals are made small.
pub fn eq_ignore_ascii_case(a: &str, b: &str) -> (r: bool)
    requires
        is_ascii_chars(a@),
        is_ascii_chars(b@),
    ensures
        r == same_ignoring_ascii_case(a@, b@),
{
    let n = a.unicode_len();
    if n != b.unicode_len() {
        return false;
    }
    let mut i: usize = 0;
    while i < n
        invariant
            n == a@.len(),
            n == b@.len(),
            i <= n,
            is_ascii_chars(a@),
            is_ascii_chars(b@),
            forall|j: int| 0 <= j < i ==> ascii_fold(#[trigger] a@[j]) == ascii_fold(b@[j]),
        decreases n - i,
    {
        let ca = a.get_ascii(i);
        let cb = b.get_ascii(i);
        let fa: u8 = if 65 <= ca && ca <= 90 { ca + 32 } else { ca };
        let fb: u8 = if 65 <= cb && cb <= 90 { cb + 32 } else { cb };
        proof {
            assert('\0' <= a@[i as int] <= '\u{7f}');
            assert('\0' <= b@[i as int] <= '\u{7f}');
        }
        if fa != fb {
            return false;
        }
        i = i + 1;
    }
    true
}

/// Two texts that are equal once ASCII capitals are made small have the
/// same length, and at each position the characters are the same or are
/// the capital and the small form of one letter.
pub proof fn law_same_name_up_to_case(a: Seq<char>, b: Seq<char>)
    requires
        same_ignoring_ascii_case(a, b),
    ensures
        a.len() == b.len(),
        forall|i: int| 0 <= i < a.len() ==> {
            ||| #[trigger] a[i] == b[i]
            ||| ('A' <= a[i] <= 'Z' && (b[i] as int) == (a[i] as int) + 32)
            ||| ('A' <= b[i] <= 'Z' && (a[i] as int) == (b[i] as int) + 32)
        },
{
    assert forall|i: int| 0 <= i < a.len() implies {
        ||| #[trigger] a[i] == b[i]
        ||| ('A' <= a[i] <= 'Z' && (b[i] as int) == (a[i] as int) + 32)
        ||| ('A' <= b[i] <= 'Z' && (a[i] as int) == (b[i] as int) + 32)
    } by {
        assert(ascii_fold(a[i]) == ascii_fold(b[i]));
    }
}

/// Whether a vehicle bears the given name, compared without regard to case.
pub open spec fn bears_name(v: VehicleSummary, name: Seq<char>) -> bool {
    lowercase(v.display_name@) == lowercase(name)
}

/// The position of the first vehicle in `vehicles` whose display name is
/// `name`, compared without regard to case.
proof fn lemma_folded_keys(a: Seq<char>, b: Seq<char>, ka: Seq<char>, kb: Seq<char>)
    requires
        ka.len() == a.len(),
        kb.len() == b.len(),
        forall|i: int| 0 <= i < a.len() ==> (#[trigger] ka[i]) as int == ascii_fold(a[i]),
        forall|i: int| 0 <= i < b.len() ==> (#[trigger] kb[i]) as int == ascii_fold(b[i]),
    ensures
        same_ignoring_ascii_case(a, b) <==> ka == kb,
{
    if same_ignoring_ascii_case(a, b) {
        assert forall|i: int| 0 <= i < ka.len() implies ka[i] == kb[i] by {
            assert(ascii_fold(a[i]) == ascii_fold(b[i]));
        }
        assert(ka =~= kb);
    }
    if ka == kb {
        assert forall|i: int| 0 <= i < a.len() implies ascii_fold(#[trigger] a[i]) == ascii_fold(b[i]) by {
            assert(ka[i] == kb[i]);
        }
    }
}

/// The position of the first vehicle in `vehicles` whose display name is
/// `name`, compared without regard to case. Where the name and a vehicle's
/// display name are both ASCII, they match exactly when they are equal once
/// ASCII capitals are made small.
pub fn find_vehicle_by_name(vehicles: &Vec<VehicleSummary>, name: &str) -> (r: Option<usize>)
    ensures
        match r {
            Some(i) => {
                &&& i < vehicles@.len()
                &&& bears_name(vehicles@[i as int], name@)
                &&& forall|j: int| 0 <= j < i ==> !bears_name(#[trigger] vehicles@[j], name@)
            },
            None => forall|j: int| 0 <= j < vehicles@.len() ==> !bears_name(#[trigger] vehicles@[j], name@),
        },
        r matches Some(i) ==> (is_ascii_chars(name@) && is_ascii_chars(vehicles@[i as int].display_name@)
            ==> same_ignoring_ascii_case(vehicles@[i as int].display_name@, name@)),
        is_ascii_chars(name@) ==> forall|j: int|
            0 <= j < (match r { Some(i) => i as int, None => vehicles@.len() as int })
                && is_ascii_chars(#[trigger] vehicles@[j].display_name@)
                ==> !same_ignoring_ascii_case(vehicles@[j].display_name@, name@),
{
    let target = lowercase_text(name);
    let name_ascii = name.is_ascii();
    let mut k: usize = 0;
    while k < vehicles.len()
        invariant
            k <= vehicles@.len(),
            target@ == lowercase(name@),
            name_ascii == is_ascii_chars(name@),
            is_ascii_chars(name@) ==> target@.len() == name@.len(),
            is_ascii_chars(name@) ==> forall|i: int| 0 <= i < name@.len() ==> (#[trigger] target@[i]) as int == ascii_fold(name@[i]),
            forall|j: int| 0 <= j < k ==> !bears_name(#[trigger] vehicles@[j], name@),
            is_ascii_chars(name@) ==> forall|j: int| 0 <= j < k && is_ascii_chars(#[trigger] vehicles@[j].display_name@)
                ==> !same_ignoring_ascii_case(vehicles@[j].display_name@, name@),
        decreases vehicles@.len() - k,
    {
        let display_name = vehicles[k].display_name.as_str();
        let key = lowercase_text(display_name);
        // ASCII names are compared by folding capitals here; the lowercase
        // keys decide for all other names.
        let hit = if name_ascii && display_name.is_ascii() {
            eq_ignore_ascii_case(display_name, name)
        } else {
            key == target
        };
        proof {
            if name_ascii && is_ascii_chars(display_name@) {
                lemma_folded_keys(display_name@, name@, key@, target@);
            }
        }
        if hit {
            return Some(k);
        }
        k = k + 1;
    }
    None
}

} // verus!
