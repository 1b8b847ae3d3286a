//! Security-identifier (SID) logic: the non-interactive whitelist, the
//! cloud-identity classification, and the decoding of a cloud SID into its
//! canonical object identifier.
//!
//! A cloud SID `S-1-12-1-a-b-c-d` decodes by stripping the fixed prefix,
//! splitting the remainder on `-`, keeping the components that parse as
//! 32-bit numbers, and rendering the first four, each as four little-endian
//! bytes, as a canonical 128-bit identifier. Fewer than four numeric
//! components yield no identifier, which is not an error.

use vstd::prelude::*;

use crate::strutil::chars_to_string;
use crate::strutil::spec_starts_with;
use crate::strutil::str_starts_with;
use crate::strutil::str_to_chars;

verus! {

/// `c` is an ASCII decimal digit.
pub open spec fn spec_is_digit(c: char) -> bool {
    '0' as u32 <= c as u32 && c as u32 <= '9' as u32
}

/// The numeric value of the digit `c`.
pub open spec fn spec_digit_val(c: char) -> int {
    c as u32 - '0' as u32
}

/// The value of a digit string read in base ten.
pub open spec fn spec_digits_val(s: Seq<char>) -> int
    decreases s.len(),
{
    if s.len() == 0 {
        0
    } else {
        spec_digits_val(s.drop_last()) * 10 + spec_digit_val(s.last())
    }
}

/// `s` is one or more digits.
pub open spec fn spec_all_digits(s: Seq<char>) -> bool {
    s.len() > 0 && forall|i: int| 0 <= i < s.len() ==> spec_is_digit(s[i])
}

/// The 32-bit number `s` denotes, or `None` when `s` is not all digits or
/// its value does not fit.
pub open spec fn spec_parse_u32(s: Seq<char>) -> Option<u32> {
    if spec_all_digits(s) && spec_digits_val(s) <= u32::MAX {
        Some(spec_digits_val(s) as u32)
    } else {
        None
    }
}

proof fn lemma_digits_val_nonneg(s: Seq<char>)
    requires
        forall|i: int| 0 <= i < s.len() ==> spec_is_digit(s[i]),
    ensures
        spec_digits_val(s) >= 0,
    decreases s.len(),
{
    if s.len() > 0 {
        lemma_digits_val_nonneg(s.drop_last());
    }
}

/// A digit string is worth at least any of its prefixes.
proof fn lemma_digits_val_prefix_le(s: Seq<char>, i: int)
    requires
        0 <= i <= s.len(),
        forall|j: int| 0 <= j < s.len() ==> spec_is_digit(s[j]),
    ensures
        spec_digits_val(s.subrange(0, i)) <= spec_digits_val(s),
    decreases s.len() - i,
{
    if i == s.len() {
        assert(s.subrange(0, i) =~= s);
    } else {
        assert(s.subrange(0, i + 1).drop_last() =~= s.subrange(0, i));
        lemma_digits_val_nonneg(s.subrange(0, i));
        lemma_digits_val_prefix_le(s, i + 1);
    }
}

/// Parse a character sequence as a base-ten 32-bit number.
pub fn parse_u32_chars(s: &Vec<char>) -> (r: Option<u32>)
    ensures
        r == spec_parse_u32(s@),
{
    let n = s.len();
    if n == 0 {
        return None;
    }
    let mut acc: u64 = 0;
    let mut i: usize = 0;
    while i < n
        invariant
            n == s@.len(),
            0 < n,
            i <= n,
            forall|j: int| 0 <= j < i ==> spec_is_digit(s@[j]),
            acc == spec_digits_val(s@.subrange(0, i as int)),
            acc <= u32::MAX,
        decreases n - i,
    {
        let c = s[i];
        let cu = c as u32;
        if cu < '0' as u32 || cu > '9' as u32 {
            return None;
        }
        let d: u64 = (cu - '0' as u32) as u64;
        proof {
            assert(s@.subrange(0, (i + 1) as int).drop_last() =~= s@.subrange(0, i as int));
            assert(s@.subrange(0, (i + 1) as int).last() == s@[i as int]);
        }
        let next: u64 = acc * 10 + d;
        if next > u32::MAX as u64 {
            proof {
                if spec_all_digits(s@) {
                    lemma_digits_val_prefix_le(s@, (i + 1) as int);
                }
            }
            return None;
        }
        acc = next;
        i = i + 1;
    }
    proof {
        assert(s@.subrange(0, n as int) =~= s@);
    }
    Some(acc as u32)
}

/// Splitting `s` on `sep`: the list of (possibly empty) segments between
/// separators, as `str::split` yields them.
pub open spec fn spec_split(s: Seq<char>, sep: char) -> Seq<Seq<char>>
    decreases s.len(),
{
    if s.len() == 0 {
        seq![Seq::<char>::empty()]
    } else if s[0] == sep {
        seq![Seq::<char>::empty()] + spec_split(s.drop_first(), sep)
    } else {
        let rest = spec_split(s.drop_first(), sep);
        seq![seq![s[0]] + rest[0]] + rest.drop_first()
    }
}

pub proof fn lemma_split_nonempty(s: Seq<char>, sep: char)
    ensures
        spec_split(s, sep).len() >= 1,
    decreases s.len(),
{
    if s.len() > 0 {
        lemma_split_nonempty(s.drop_first(), sep);
    }
}

/// The split with `lead` prepended to its first segment.
pub open spec fn spec_prepend_first(lead: Seq<char>, segs: Seq<Seq<char>>) -> Seq<Seq<char>> {
    seq![lead + segs[0]] + segs.drop_first()
}

/// The views of a sequence of character vectors.
pub open spec fn views_of(parts: Seq<Vec<char>>) -> Seq<Seq<char>> {
    parts.map_values(|v: Vec<char>| v@)
}

/// Split `s` on the separator `sep`.
pub fn split_chars(s: &Vec<char>, sep: char) -> (parts: Vec<Vec<char>>)
    ensures
        views_of(parts@) == spec_split(s@, sep),
{
    let n = s.len();
    let mut parts: Vec<Vec<char>> = Vec::new();
    let mut cur: Vec<char> = Vec::new();
    let mut i: usize = 0;
    proof {
        lemma_split_nonempty(s@, sep);
        assert(s@.skip(0) =~= s@);
        assert(spec_prepend_first(Seq::<char>::empty(), spec_split(s@, sep)) =~~= spec_split(
            s@,
            sep,
        ));
    }
    while i < n
        invariant
            n == s@.len(),
            i <= n,
            spec_split(s@, sep) =~~= views_of(parts@) + spec_prepend_first(
                cur@,
                spec_split(s@.skip(i as int), sep),
            ),
        decreases n - i,
    {
        let ghost prev_parts = parts@;
        let ghost prev_cur = cur@;
        let ghost tail = s@.skip(i as int);
        proof {
            assert(tail.len() > 0);
            assert(tail[0] == s@[i as int]);
            assert(tail.drop_first() =~= s@.skip(i as int + 1));
            lemma_split_nonempty(s@.skip(i as int + 1), sep);
        }
        let c = s[i];
        if c == sep {
            parts.push(cur);
            cur = Vec::new();
            proof {
                let next_split = spec_split(s@.skip(i as int + 1), sep);
                assert(spec_split(tail, sep) =~~= seq![Seq::<char>::empty()] + next_split);
                assert(views_of(parts@) =~~= views_of(prev_parts).push(prev_cur));
                assert(spec_prepend_first(prev_cur, spec_split(tail, sep)) =~~= seq![prev_cur]
                    + next_split);
                assert(spec_prepend_first(cur@, next_split) =~~= next_split);
                assert(views_of(parts@) + spec_prepend_first(cur@, next_split) =~~= views_of(
                    prev_parts,
                ) + spec_prepend_first(prev_cur, spec_split(tail, sep)));
            }
        } else {
            cur.push(c);
            proof {
                let next_split = spec_split(s@.skip(i as int + 1), sep);
                assert(spec_split(tail, sep) =~~= spec_prepend_first(
                    seq![s@[i as int]],
                    next_split,
                ));
                assert(spec_prepend_first(prev_cur, spec_split(tail, sep)) =~~= spec_prepend_first(
                    prev_cur + seq![s@[i as int]],
                    next_split,
                ));
                assert(cur@ =~= prev_cur + seq![s@[i as int]]);
            }
        }
        i = i + 1;
    }
    proof {
        assert(s@.skip(n as int) =~= Seq::<char>::empty());
        assert(spec_prepend_first(cur@, spec_split(s@.skip(n as int), sep)) =~~= seq![cur@]);
    }
    parts.push(cur);
    proof {
        assert(views_of(parts@) =~~= spec_split(s@, sep));
    }
    parts
}

/// The numeric components among `parts`, in order: those that parse as
/// 32-bit numbers; the others are skipped, not errors.
pub open spec fn spec_numeric_parts(parts: Seq<Seq<char>>) -> Seq<u32>
    decreases parts.len(),
{
    if parts.len() == 0 {
        Seq::empty()
    } else {
        let rest = spec_numeric_parts(parts.drop_first());
        match spec_parse_u32(parts[0]) {
            Some(v) => seq![v] + rest,
            None => rest,
        }
    }
}

/// Keep the parts that parse as 32-bit numbers.
pub fn numeric_parts(parts: &Vec<Vec<char>>) -> (r: Vec<u32>)
    ensures
        r@ == spec_numeric_parts(views_of(parts@)),
{
    let n = parts.len();
    let mut r: Vec<u32> = Vec::new();
    let mut i: usize = 0;
    proof {
        assert(views_of(parts@).skip(0) =~= views_of(parts@));
    }
    while i < n
        invariant
            n == parts@.len(),
            i <= n,
            spec_numeric_parts(views_of(parts@)) =~= r@ + spec_numeric_parts(
                views_of(parts@).skip(i as int),
            ),
        decreases n - i,
    {
        let ghost prev = r@;
        let ghost tail = views_of(parts@).skip(i as int);
        proof {
            assert(tail[0] == views_of(parts@)[i as int]);
            assert(tail.drop_first() =~= views_of(parts@).skip(i as int + 1));
        }
        match parse_u32_chars(&parts[i]) {
            Some(v) => {
                r.push(v);
                proof {
                    assert(r@ =~= prev.push(v));
                    assert(r@ + spec_numeric_parts(views_of(parts@).skip(i as int + 1)) =~= prev
                        + spec_numeric_parts(tail));
                }
            },
            None => {},
        }
        i = i + 1;
    }
    proof {
        assert(views_of(parts@).skip(n as int) =~= Seq::<Seq<char>>::empty());
    }
    r
}

/// `s` with the prefix `p` removed when present, else `s` unchanged.
pub open spec fn spec_strip_prefix(s: Seq<char>, p: Seq<char>) -> Seq<char> {
    if spec_starts_with(s, p) {
        s.skip(p.len() as int)
    } else {
        s
    }
}

/// The characters of `v` from position `n` on.
pub fn chars_skip(v: &Vec<char>, n: usize) -> (r: Vec<char>)
    requires
        n <= v@.len(),
    ensures
        r@ == v@.skip(n as int),
{
    let len = v.len();
    let mut r: Vec<char> = Vec::new();
    let mut i: usize = n;
    while i < len
        invariant
            len == v@.len(),
            n <= i <= len,
            r@ =~= v@.subrange(n as int, i as int),
        decreases len - i,
    {
        r.push(v[i]);
        i = i + 1;
    }
    proof {
        assert(r@ =~= v@.skip(n as int));
    }
    r
}

/// The four bytes of `v`, least significant first.
pub open spec fn spec_le_bytes(v: u32) -> Seq<u8> {
    seq![
        (v % 256) as u8,
        ((v / 256) % 256) as u8,
        ((v / 65536) % 256) as u8,
        ((v / 16777216) % 256) as u8,
    ]
}

/// Encode `v` as four little-endian bytes.
pub fn le_bytes_u32(v: u32) -> (b: Vec<u8>)
    ensures
        b@ == spec_le_bytes(v),
{
    let mut b: Vec<u8> = Vec::new();
    b.push((v % 256) as u8);
    b.push(((v / 256) % 256) as u8);
    b.push(((v / 65536) % 256) as u8);
    b.push(((v / 16777216) % 256) as u8);
    proof {
        assert(b@ =~= spec_le_bytes(v));
    }
    b
}

/// The lowercase hexadecimal digit with value `n`.
pub open spec fn spec_hex_digit(n: int) -> char {
    if n == 0 {
        '0'
    } else if n == 1 {
        '1'
    } else if n == 2 {
        '2'
    } else if n == 3 {
        '3'
    } else if n == 4 {
        '4'
    } else if n == 5 {
        '5'
    } else if n == 6 {
        '6'
    } else if n == 7 {
        '7'
    } else if n == 8 {
        '8'
    } else if n == 9 {
        '9'
    } else if n == 10 {
        'a'
    } else if n == 11 {
        'b'
    } else if n == 12 {
        'c'
    } else if n == 13 {
        'd'
    } else if n == 14 {
        'e'
    } else {
        'f'
    }
}

/// A byte as two lowercase hexadecimal digits.
pub open spec fn spec_hex_byte(b: u8) -> Seq<char> {
    seq![spec_hex_digit(b as int / 16), spec_hex_digit(b as int % 16)]
}

/// A byte string as its lowercase hexadecimal digits.
pub open spec fn spec_hex_seq(bytes: Seq<u8>) -> Seq<char>
    decreases bytes.len(),
{
    if bytes.len() == 0 {
        Seq::empty()
    } else {
        spec_hex_byte(bytes[0]) + spec_hex_seq(bytes.drop_first())
    }
}

/// Sixteen bytes in the canonical textual form of a 128-bit identifier:
/// lowercase hexadecimal digits in 8-4-4-4-12 grouping.
pub open spec fn spec_uuid_string(b: Seq<u8>) -> Seq<char> {
    spec_hex_seq(b.subrange(0, 4)) + seq!['-'] + spec_hex_seq(b.subrange(4, 6)) + seq!['-']
        + spec_hex_seq(b.subrange(6, 8)) + seq!['-'] + spec_hex_seq(b.subrange(8, 10)) + seq!['-']
        + spec_hex_seq(b.subrange(10, 16))
}

/// Relies on `uuid::Uuid::from_slice` and the `Display` form of `uuid::Uuid`:
/// sixteen bytes render as their lowercase hexadecimal digits in 8-4-4-4-12
/// grouping, a pure function of the bytes.
#[verifier::external_body]
fn uuid_hyphenated_string(bytes: &Vec<u8>) -> (s: String)
    requires
        bytes@.len() == 16,
    ensures
        s@ == spec_uuid_string(bytes@),
{
    match uuid::Uuid::from_slice(bytes.as_slice()) {
        Ok(u) => u.to_string(),
        Err(_) => String::new(),
    }
}

/// The object identifier a cloud SID decodes to, if it has at least four
/// numeric sub-authority components after the fixed cloud prefix.
pub open spec fn spec_object_id(sid: Seq<char>) -> Option<Seq<char>> {
    let rest = spec_strip_prefix(sid, "S-1-12-1-"@);
    let nums = spec_numeric_parts(spec_split(rest, '-'));
    if nums.len() < 4 {
        None
    } else {
        Some(
            spec_uuid_string(
                spec_le_bytes(nums[0]) + spec_le_bytes(nums[1]) + spec_le_bytes(nums[2])
                    + spec_le_bytes(nums[3]),
            ),
        )
    }
}

/// Decode a cloud SID into its canonical object identifier; a SID with fewer
/// than four numeric components after the prefix yields no identifier.
pub fn convert_azure_ad_sid_to_object_id(sid: &str) -> (r: Option<String>)
    ensures
        match r {
            Some(s) => spec_object_id(sid@) == Some(s@),
            None => spec_object_id(sid@) is None,
        },
{
    proof {
        reveal_strlit("S-1-12-1-");
    }
    let chars = str_to_chars(sid);
    let rest: Vec<char> = if str_starts_with(sid, "S-1-12-1-") {
        chars_skip(&chars, 9)
    } else {
        chars
    };
    let parts = split_chars(&rest, '-');
    let nums = numeric_parts(&parts);
    if nums.len() < 4 {
        return None;
    }
    let mut bytes: Vec<u8> = le_bytes_u32(nums[0]);
    let mut b1 = le_bytes_u32(nums[1]);
    let mut b2 = le_bytes_u32(nums[2]);
    let mut b3 = le_bytes_u32(nums[3]);
    bytes.append(&mut b1);
    bytes.append(&mut b2);
    bytes.append(&mut b3);
    proof {
        let ghost nums_s = spec_numeric_parts(spec_split(rest@, '-'));
        assert(bytes@ =~= spec_le_bytes(nums_s[0]) + spec_le_bytes(nums_s[1]) + spec_le_bytes(
            nums_s[2],
        ) + spec_le_bytes(nums_s[3]));
        assert(bytes@.len() == 16);
    }
    let s = uuid_hyphenated_string(&bytes);
    Some(s)
}

/// The two well-known SID prefixes of non-interactive service and virtual
/// accounts, which never trigger collection.
pub open spec fn spec_is_whitelisted(sid: Seq<char>) -> bool {
    spec_starts_with(sid, "S-1-5-96"@) || spec_starts_with(sid, "S-1-5-90"@)
}

/// Whether `sid` begins with one of the whitelisted non-interactive prefixes.
pub fn is_whitelisted_sid(sid: &str) -> (r: bool)
    ensures
        r == spec_is_whitelisted(sid@),
{
    str_starts_with(sid, "S-1-5-96") || str_starts_with(sid, "S-1-5-90")
}

/// A SID with the cloud-identity prefix belongs to a cloud identity.
pub open spec fn spec_is_azure_ad_sid(sid: Seq<char>) -> bool {
    spec_starts_with(sid, "S-1-12-1"@)
}

/// The user-type label for a given cloud-or-not classification.
pub open spec fn spec_user_type_name(azure: bool) -> Seq<char> {
    if azure {
        "AzureAD"@
    } else {
        "DomainOrLocal"@
    }
}

/// Classify a SID's identity source: cloud, or domain/local.
pub fn user_type_for_sid(sid: &str) -> (t: String)
    ensures
        t@ == spec_user_type_name(spec_is_azure_ad_sid(sid@)),
{
    let azure = str_starts_with(sid, "S-1-12-1");
    let label: &str = if azure {
        "AzureAD"
    } else {
        "DomainOrLocal"
    };
    let out: Vec<char> = str_to_chars(label);
    chars_to_string(&out)
}

/// The identifier a cloud SID decodes to is decided by its numeric
/// sub-authority components alone, and deterministically: two SIDs whose
/// remainders after the prefix carry the same first four numeric components
/// decode to the same identifier, and to one at all.
pub proof fn lemma_object_id_from_components(s1: Seq<char>, s2: Seq<char>)
    requires
        spec_numeric_parts(spec_split(spec_strip_prefix(s1, "S-1-12-1-"@), '-')).len() >= 4,
        spec_numeric_parts(spec_split(spec_strip_prefix(s2, "S-1-12-1-"@), '-')).len() >= 4,
        spec_numeric_parts(spec_split(spec_strip_prefix(s1, "S-1-12-1-"@), '-')).subrange(0, 4)
            == spec_numeric_parts(spec_split(spec_strip_prefix(s2, "S-1-12-1-"@), '-')).subrange(
            0,
            4,
        ),
    ensures
        spec_object_id(s1) == spec_object_id(s2),
        spec_object_id(s1) is Some,
{
    let n1 = spec_numeric_parts(spec_split(spec_strip_prefix(s1, "S-1-12-1-"@), '-'));
    let n2 = spec_numeric_parts(spec_split(spec_strip_prefix(s2, "S-1-12-1-"@), '-'));
    assert forall|k: int| 0 <= k < 4 implies n1[k] == n2[k] by {
        assert(n1.subrange(0, 4)[k] == n1[k]);
        assert(n2.subrange(0, 4)[k] == n2[k]);
    }
}

} // verus!
