use crate::text::{append_decimal, decimal, decimal_width, lemma_decimal_digits, lemma_decimal_len};
use crate::text::{signed_zero_padded, zero_padded, zeros};
use vstd::prelude::*;
use vstd::string::StrSliceExecFns;
use vstd::string::StringExecFns;

verus! {

/// A wall-clock time to the second, as the receiver read it when a transfer
/// was announced.
#[derive(Clone, Copy, Debug, PartialEq, Eq, Structural)]
pub struct Timestamp {
    pub year: i32,
    pub month: u32,
    pub day: u32,
    pub hour: u32,
    pub minute: u32,
    pub second: u32,
}

impl Timestamp {
    /// Whether the fields lie in the ranges of a calendar date and a time of day.
    pub open spec fn on_calendar(self) -> bool {
        &&& 1 <= self.month <= 12
        &&& 1 <= self.day <= 31
        &&& self.hour <= 23
        &&& self.minute <= 59
        &&& self.second <= 59
    }
}

/// The time written as `MMDDYYYY_HHMMSS`: each field in base ten, zero-filled
/// to its width, month and day before the year.
pub open spec fn timestamp_label(t: Timestamp) -> Seq<char> {
    zero_padded(t.month as nat, 2) + zero_padded(t.day as nat, 2) + signed_zero_padded(
        t.year as int,
        4,
    ) + seq!['_'] + zero_padded(t.hour as nat, 2) + zero_padded(t.minute as nat, 2) + zero_padded(
        t.second as nat,
        2,
    )
}

/// The two underscores that part the fields of a storage name.
pub open spec fn field_separator() -> Seq<char> {
    seq!['_', '_']
}

/// The name under which the receiver stores a transfer:
/// `<MMDDYYYY_HHMMSS>__<peer_ip>__<announced_name>`.
pub open spec fn storage_name(peer_ip: Seq<char>, announced_name: Seq<char>, now: Timestamp) -> Seq<
    char,
> {
    timestamp_label(now) + field_separator() + peer_ip + field_separator() + announced_name
}

/// Where the file of that name lies: directly in `write_dir`. A separator is
/// put between the two unless `write_dir` is empty or already ends in one.
pub open spec fn destination_path(write_dir: Seq<char>, name: Seq<char>) -> Seq<char> {
    if write_dir.len() == 0 || write_dir.last() == '/' {
        write_dir + name
    } else {
        write_dir + seq!['/'] + name
    }
}

/// Appends `n` in base ten, zero-filled to `width` characters.
pub fn append_zero_padded(out: &mut String, n: u64, width: usize)
    ensures
        final(out)@ == old(out)@ + zero_padded(n as nat, width as nat),
{
    let digits: usize = decimal_width(n);
    let mut filled: usize = digits;
    while filled < width
        invariant
            digits <= filled,
            digits < width ==> filled <= width,
            digits >= width ==> filled == digits,
            out@ == old(out)@ + zeros((filled - digits) as nat),
        decreases width - filled,
    {
        proof {
            reveal_strlit("0");
            assert(zeros((filled - digits) as nat) + "0"@ =~= zeros((filled + 1 - digits) as nat));
        }
        out.append("0");
        filled = filled + 1;
    }
    append_decimal(out, n);
    assert(out@ =~= old(out)@ + zero_padded(n as nat, width as nat)) by {
        if digits >= width {
            assert(zeros(0) =~= Seq::<char>::empty());
        }
    }
}

/// Appends `value` in base ten, zero-filled to `width` characters, the minus
/// sign of a negative value first.
pub fn append_signed_zero_padded(out: &mut String, value: i64, width: usize)
    ensures
        final(out)@ == old(out)@ + signed_zero_padded(value as int, width as nat),
{
    if value < 0 {
        proof {
            reveal_strlit("-");
        }
        out.append("-");
        let magnitude: u64 = (-(value + 1)) as u64 + 1;
        let rest: usize = if width > 0 {
            width - 1
        } else {
            0
        };
        append_zero_padded(out, magnitude, rest);
        assert(out@ =~= old(out)@ + signed_zero_padded(value as int, width as nat));
    } else {
        append_zero_padded(out, value as u64, width);
    }
}

/// Writes the time as `MMDDYYYY_HHMMSS`.
pub fn format_timestamp(now: &Timestamp) -> (label: String)
    ensures
        label@ == timestamp_label(*now),
{
    let mut label = String::new();
    append_zero_padded(&mut label, now.month as u64, 2);
    append_zero_padded(&mut label, now.day as u64, 2);
    append_signed_zero_padded(&mut label, now.year as i64, 4);
    proof {
        reveal_strlit("_");
    }
    label.append("_");
    append_zero_padded(&mut label, now.hour as u64, 2);
    append_zero_padded(&mut label, now.minute as u64, 2);
    append_zero_padded(&mut label, now.second as u64, 2);
    assert(label@ =~= timestamp_label(*now));
    label
}

/// Derives the name under which a transfer is stored from the peer's
/// address, the announced name and the time of receipt, and from nothing else.
///
/// The name is meant to keep transfers apart in one shared directory. It
/// does so for different peers; two transfers from one address that announce
/// one name within one second get one and the same name.
pub fn derive_storage_name(peer_ip: &str, announced_name: &str, now: &Timestamp) -> (name: String)
    ensures
        name@ == storage_name(peer_ip@, announced_name@, *now),
{
    let mut name = format_timestamp(now);
    proof {
        reveal_strlit("__");
    }
    name.append("__");
    name.append(peer_ip);
    name.append("__");
    name.append(announced_name);
    assert(name@ =~= storage_name(peer_ip@, announced_name@, *now));
    name
}

/// Builds the path of the file named `name` in the directory `write_dir`.
pub fn build_destination_path(write_dir: &str, name: &str) -> (path: String)
    ensures
        path@ == destination_path(write_dir@, name@),
{
    let length: usize = write_dir.unicode_len();
    let mut path = String::from_str(write_dir);
    if length > 0 {
        let last: char = write_dir.get_char(length - 1);
        if last != '/' {
            proof {
                reveal_strlit("/");
            }
            path.append("/");
        }
    }
    path.append(name);
    assert(path@ =~= destination_path(write_dir@, name@));
    path
}

/// Where one transfer is stored. It is made on the receiving side only, once
/// per transfer, after the announcement was validated and before the file is
/// opened, and it lives no longer than the transfer.
#[derive(Clone, Debug, PartialEq, Eq)]
pub struct NamingResult {
    pub storage_path: String,
}

impl View for NamingResult {
    type V = Seq<char>;

    open spec fn view(&self) -> Seq<char> {
        self.storage_path@
    }
}

impl NamingResult {
    /// Names the file in `write_dir` for what the peer at `peer_ip` announced
    /// as `announced_name` at the time `now`.
    pub fn derive(write_dir: &str, peer_ip: &str, announced_name: &str, now: &Timestamp) -> (result:
        NamingResult)
        ensures
            result@ == destination_path(write_dir@, storage_name(peer_ip@, announced_name@, *now)),
    {
        let name = derive_storage_name(peer_ip, announced_name, now);
        NamingResult { storage_path: build_destination_path(write_dir, name.as_str()) }
    }
}

/// A zero-filled number consists of digits and is at least `width` long;
/// it is exactly that long when the number has no more digits than that.
pub proof fn lemma_zero_padded(n: nat, width: nat)
    ensures
        zero_padded(n, width).len() >= width,
        decimal(n).len() <= width ==> zero_padded(n, width).len() == width,
        forall|i: int|
            0 <= i < zero_padded(n, width).len() ==> '0' <= #[trigger] zero_padded(n, width)[i]
                <= '9',
{
    lemma_decimal_len(n);
    assert forall|i: int| 0 <= i < zero_padded(n, width).len() implies '0' <= #[trigger] zero_padded(
        n,
        width,
    )[i] <= '9' by {
        let digits = decimal(n);
        if digits.len() >= width {
            lemma_decimal_digits(n, i);
        } else {
            let fill = width - digits.len();
            if i >= fill {
                lemma_decimal_digits(n, i - fill);
            }
        }
    }
}

/// A time label is made of digits, underscores and at most a minus sign: it
/// holds no path separator and does not start with a dot.
pub proof fn lemma_label_characters(t: Timestamp)
    ensures
        timestamp_label(t).len() >= 15,
        forall|i: int|
            0 <= i < timestamp_label(t).len() ==> {
                let c = #[trigger] timestamp_label(t)[i];
                ('0' <= c <= '9') || c == '_' || c == '-'
            },
{
    lemma_zero_padded(t.month as nat, 2);
    lemma_zero_padded(t.day as nat, 2);
    lemma_zero_padded(t.hour as nat, 2);
    lemma_zero_padded(t.minute as nat, 2);
    lemma_zero_padded(t.second as nat, 2);
    if t.year < 0 {
        lemma_zero_padded((-t.year) as nat, 3);
    } else {
        lemma_zero_padded(t.year as nat, 4);
    }
}

/// Between the years 0 and 9999 a label of a calendar time is exactly the
/// fifteen characters of `MMDDYYYY_HHMMSS`, the underscore in the ninth place.
pub proof fn lemma_label_width(t: Timestamp)
    requires
        t.on_calendar(),
        0 <= t.year <= 9999,
    ensures
        timestamp_label(t).len() == 15,
        timestamp_label(t)[8] == '_',
{
    lemma_two_digits(t.month as nat);
    lemma_two_digits(t.day as nat);
    lemma_two_digits(t.hour as nat);
    lemma_two_digits(t.minute as nat);
    lemma_two_digits(t.second as nat);
    let y = t.year as nat;
    lemma_decimal_len(y);
    lemma_decimal_len(y / 10);
    lemma_decimal_len(y / 100);
    lemma_decimal_len(y / 1000);
    lemma_zero_padded(y, 4);
}

proof fn lemma_two_digits(n: nat)
    requires
        n <= 99,
    ensures
        zero_padded(n, 2).len() == 2,
{
    lemma_decimal_len(n);
    lemma_decimal_len(n / 10);
    lemma_zero_padded(n, 2);
}

/// Naming has no hidden state: the same peer, name and time give the same
/// storage name, each time it is asked for.
pub proof fn lemma_naming_is_deterministic(
    peer_a: Seq<char>,
    name_a: Seq<char>,
    time_a: Timestamp,
    peer_b: Seq<char>,
    name_b: Seq<char>,
    time_b: Timestamp,
)
    requires
        peer_a == peer_b,
        name_a == name_b,
        time_a == time_b,
    ensures
        storage_name(peer_a, name_a, time_a) == storage_name(peer_b, name_b, time_b),
{
}

/// Two peers that announce the same name at the same second are stored under
/// different names, and so in different files of the same directory.
pub proof fn lemma_peers_do_not_collide(
    peer_a: Seq<char>,
    peer_b: Seq<char>,
    announced_name: Seq<char>,
    now: Timestamp,
    write_dir: Seq<char>,
)
    requires
        peer_a != peer_b,
    ensures
        storage_name(peer_a, announced_name, now) != storage_name(peer_b, announced_name, now),
        destination_path(write_dir, storage_name(peer_a, announced_name, now)) != destination_path(
            write_dir,
            storage_name(peer_b, announced_name, now),
        ),
{
    let a = storage_name(peer_a, announced_name, now);
    let b = storage_name(peer_b, announced_name, now);
    let lead = timestamp_label(now).len() + 2;
    if a == b {
        assert(a.len() == lead + peer_a.len() + 2 + announced_name.len());
        assert(b.len() == lead + peer_b.len() + 2 + announced_name.len());
        assert forall|i: int| 0 <= i < peer_a.len() implies peer_a[i] == peer_b[i] by {
            assert(a[lead + i] == peer_a[i]);
            assert(b[lead + i] == peer_b[i]);
        }
        assert(peer_a =~= peer_b);
    }
    lemma_destination_is_injective(write_dir, a, b);
}

/// In one directory, different names lie at different paths.
pub proof fn lemma_destination_is_injective(write_dir: Seq<char>, a: Seq<char>, b: Seq<char>)
    requires
        a != b,
    ensures
        destination_path(write_dir, a) != destination_path(write_dir, b),
{
    let pa = destination_path(write_dir, a);
    let pb = destination_path(write_dir, b);
    if pa == pb {
        let lead = pa.len() - a.len();
        assert(a.len() == b.len());
        assert forall|i: int| 0 <= i < a.len() implies a[i] == b[i] by {
            assert(pa[lead + i] == a[i]);
            assert(pb[lead + i] == b[i]);
        }
        assert(a =~= b);
    }
}

/// A storage name made from a peer address and an announced name that hold
/// no path separator holds none itself, and it is neither `.` nor `..`: the
/// destination is a file directly in the write directory.
pub proof fn lemma_storage_name_stays_in_directory(
    peer_ip: Seq<char>,
    announced_name: Seq<char>,
    now: Timestamp,
)
    requires
        !peer_ip.contains('/'),
        !announced_name.contains('/'),
    ensures
        !storage_name(peer_ip, announced_name, now).contains('/'),
        storage_name(peer_ip, announced_name, now).len() >= 19,
        storage_name(peer_ip, announced_name, now)[0] != '.',
{
    let name = storage_name(peer_ip, announced_name, now);
    let label = timestamp_label(now);
    lemma_label_characters(now);
    assert(name[0] == label[0]);
    assert forall|i: int| 0 <= i < name.len() implies name[i] != '/' by {
        let l = label.len() as int;
        let p = peer_ip.len() as int;
        if i < l {
            assert(name[i] == label[i]);
        } else if i < l + 2 {
            assert(name[i] == '_');
        } else if i < l + 2 + p {
            assert(name[i] == peer_ip[i - l - 2]);
            assert(peer_ip.contains(peer_ip[i - l - 2]));
        } else if i < l + 2 + p + 2 {
            assert(name[i] == '_');
        } else {
            assert(name[i] == announced_name[i - l - p - 4]);
            assert(announced_name.contains(announced_name[i - l - p - 4]));
        }
    }
}

} // verus!
