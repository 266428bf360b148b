//! The durable cache tier: object-store key scheme, metadata expiry, plans.
//!
//! The backing object store is reached by the embedding program; this module
//! owns every rule about that traffic. Reads and writes are described as
//! *plans* (which object key, which metadata) and read results are resolved
//! by *decisions* (deliver, or delete the object and report a miss), so that
//! the expiry policy — an absolute epoch-second deadline carried as object
//! metadata, checked on every read because the store never sweeps — is
//! verified even though the store itself is not.

use vstd::prelude::*;
use vstd::string::StrSliceExecFns;
use vstd::string::StringExecFns;
use crate::config::S3Config;

verus! {

/// The character for one decimal digit.
pub open spec fn spec_digit_char(d: nat) -> char {
    if d == 0 {
        '0'
    } else if d == 1 {
        '1'
    } else if d == 2 {
        '2'
    } else if d == 3 {
        '3'
    } else if d == 4 {
        '4'
    } else if d == 5 {
        '5'
    } else if d == 6 {
        '6'
    } else if d == 7 {
        '7'
    } else if d == 8 {
        '8'
    } else {
        '9'
    }
}

/// The decimal rendering of `n`, most significant digit first, no sign,
/// no padding: the form every number takes in object keys and metadata.
pub open spec fn spec_udec(n: nat) -> Seq<char>
    decreases n,
{
    if n < 10 {
        seq![spec_digit_char(n)]
    } else {
        spec_udec(n / 10).push(spec_digit_char(n % 10))
    }
}

/// Whether `c` is a decimal digit.
pub open spec fn is_digit_char(c: char) -> bool {
    48 <= c as int && c as int <= 57
}

/// The numeric value of a digit character.
pub open spec fn digit_val(c: char) -> nat {
    (c as int - 48) as nat
}

/// Whether every character of `s` is a decimal digit.
pub open spec fn all_digits(s: Seq<char>) -> bool {
    forall|i: int| 0 <= i < s.len() ==> is_digit_char(#[trigger] s[i])
}

/// The number a digit sequence denotes.
pub open spec fn dec_value(s: Seq<char>) -> nat
    decreases s.len(),
{
    if s.len() == 0 {
        0
    } else {
        dec_value(s.drop_last()) * 10 + digit_val(s.last())
    }
}

/// What a strict decimal parse of `s` yields: the denoted number when `s`
/// is one or more digits and the value fits in 64 bits, absent otherwise.
pub open spec fn spec_parse_u64(s: Seq<char>) -> Option<u64> {
    if s.len() >= 1 && all_digits(s) && dec_value(s) <= u64::MAX {
        Some(dec_value(s) as u64)
    } else {
        None
    }
}

fn digit_str(d: u64) -> (r: &'static str)
    requires
        d < 10,
    ensures
        r@ == seq![spec_digit_char(d as nat)],
{
    proof {
        reveal_strlit("0");
        reveal_strlit("1");
        reveal_strlit("2");
        reveal_strlit("3");
        reveal_strlit("4");
        reveal_strlit("5");
        reveal_strlit("6");
        reveal_strlit("7");
        reveal_strlit("8");
        reveal_strlit("9");
    }
    let r = if d == 0 {
        "0"
    } else if d == 1 {
        "1"
    } else if d == 2 {
        "2"
    } else if d == 3 {
        "3"
    } else if d == 4 {
        "4"
    } else if d == 5 {
        "5"
    } else if d == 6 {
        "6"
    } else if d == 7 {
        "7"
    } else {
        "8"
    };
    let r = if d == 9 {
        "9"
    } else {
        r
    };
    proof {
        assert(r@ =~= seq![spec_digit_char(d as nat)]);
    }
    r
}

/// Render `n` in decimal.
pub fn u64_to_dec(n: u64) -> (s: String)
    ensures
        s@ == spec_udec(n as nat),
    decreases n,
{
    if n < 10 {
        digit_str(n).to_owned()
    } else {
        let mut s = u64_to_dec(n / 10);
        s.append(digit_str(n % 10));
        proof {
            assert(s@ =~= spec_udec((n / 10) as nat).push(spec_digit_char((n % 10) as nat)));
        }
        s
    }
}

/// Parse a strict decimal number: one or more digits, nothing else, value
/// within 64 bits. This is the form `u64_to_dec` writes, so whatever this
/// crate stored it can read back.
pub fn parse_u64_dec(s: &str) -> (r: Option<u64>)
    ensures
        r == spec_parse_u64(s@),
{
    let n = s.unicode_len();
    if n == 0 {
        return None;
    }
    let mut acc: u64 = 0;
    let mut i: usize = 0;
    while i < n
        invariant
            n == s@.len(),
            0 <= i <= n,
            all_digits(s@.subrange(0, i as int)),
            acc == dec_value(s@.subrange(0, i as int)),
        decreases n - i,
    {
        let c = s.get_char(i);
        let cv = c as u32;
        if cv < 48 || cv > 57 {
            proof {
                assert(!is_digit_char(s@[i as int]));
            }
            return None;
        }
        let d = (cv - 48) as u64;
        if acc > (u64::MAX - d) / 10 {
            proof {
                lemma_dec_value_prefix_grows(s@, i as int + 1);
                assert(s@.subrange(0, i as int + 1).drop_last() =~= s@.subrange(0, i as int));
                assert(s@.subrange(0, i as int + 1).last() == s@[i as int]);
                assert(dec_value(s@.subrange(0, i as int + 1)) > u64::MAX);
            }
            return None;
        }
        acc = acc * 10 + d;
        proof {
            assert(s@.subrange(0, i as int + 1).drop_last() =~= s@.subrange(0, i as int));
            assert(s@.subrange(0, i as int + 1).last() == s@[i as int]);
            assert forall|j: int| 0 <= j < i + 1 implies is_digit_char(
                #[trigger] s@.subrange(0, i as int + 1)[j],
            ) by {
                if j < i {
                    assert(is_digit_char(s@.subrange(0, i as int)[j]));
                }
            }
        }
        i = i + 1;
    }
    proof {
        assert(s@.subrange(0, n as int) =~= s@);
    }
    Some(acc)
}

/// A digit sequence denotes at least what any of its prefixes denotes.
proof fn lemma_dec_value_prefix_grows(s: Seq<char>, j: int)
    requires
        0 <= j <= s.len(),
    ensures
        dec_value(s.subrange(0, j)) <= dec_value(s),
    decreases s.len() - j,
{
    if j == s.len() {
        assert(s.subrange(0, j) =~= s);
    } else {
        lemma_dec_value_prefix_grows(s, j + 1);
        assert(s.subrange(0, j + 1).drop_last() =~= s.subrange(0, j));
        assert(dec_value(s.subrange(0, j + 1)) == dec_value(s.subrange(0, j)) * 10 + digit_val(
            s.subrange(0, j + 1).last(),
        ));
    }
}

/// Every rendered number is all digits.
proof fn lemma_udec_all_digits(n: nat)
    ensures
        all_digits(spec_udec(n)),
        spec_udec(n).len() >= 1,
    decreases n,
{
    if n < 10 {
    } else {
        lemma_udec_all_digits(n / 10);
        assert forall|i: int| 0 <= i < spec_udec(n).len() implies is_digit_char(
            #[trigger] spec_udec(n)[i],
        ) by {
            if i < spec_udec(n / 10).len() {
                assert(is_digit_char(spec_udec(n / 10)[i]));
            }
        }
    }
}

/// Rendering then parsing restores the number exactly: numbers stored in
/// object metadata are read back as themselves.
pub proof fn lemma_dec_roundtrip(n: u64)
    ensures
        spec_parse_u64(spec_udec(n as nat)) == Some(n),
    decreases n,
{
    lemma_udec_all_digits(n as nat);
    if n < 10 {
        assert(spec_udec(n as nat).drop_last() =~= Seq::<char>::empty());
        assert(dec_value(Seq::<char>::empty()) == 0);
        assert(spec_udec(n as nat).last() == spec_digit_char(n as nat));
        assert(digit_val(spec_digit_char(n as nat)) == n);
        assert(dec_value(spec_udec(n as nat)) == dec_value(spec_udec(n as nat).drop_last()) * 10
            + digit_val(spec_udec(n as nat).last()));
        assert(dec_value(spec_udec(n as nat)) == n);
    } else {
        lemma_dec_roundtrip(n / 10);
        assert(dec_value(spec_udec((n / 10) as nat)) == n / 10);
        assert(spec_udec(n as nat).drop_last() =~= spec_udec((n / 10) as nat));
        assert(spec_udec(n as nat).last() == spec_digit_char((n % 10) as nat));
        assert(dec_value(spec_udec(n as nat)) == dec_value(spec_udec((n / 10) as nat)) * 10
            + digit_val(spec_digit_char((n % 10) as nat)));
        assert(digit_val(spec_digit_char((n % 10) as nat)) == n % 10);
        assert(dec_value(spec_udec(n as nat)) == (n / 10) * 10 + n % 10);
        assert(dec_value(spec_udec(n as nat)) == n);
    }
}

/// The object key under which one tile is stored:
/// `{prefix}/{table}/{z}/{x}/{y}.pbf`, slash-delimited and stable across
/// restarts, so the same tile always resolves to the same object.
pub open spec fn spec_s3_key(prefix: Seq<char>, table: Seq<char>, z: u32, x: u32, y: u32) -> Seq<
    char,
> {
    prefix + "/"@ + table + "/"@ + spec_udec(z as nat) + "/"@ + spec_udec(x as nat) + "/"@
        + spec_udec(y as nat) + ".pbf"@
}

/// Build the object key for a tile.
pub fn generate_s3_key(config: &S3Config, table_name: &str, z: u32, x: u32, y: u32) -> (r: String)
    ensures
        r@ == spec_s3_key(config.prefix@, table_name@, z, x, y),
{
    let mut s = config.prefix.clone();
    s.append("/");
    s.append(table_name);
    s.append("/");
    let zs = u64_to_dec(z as u64);
    s.append(zs.as_str());
    s.append("/");
    let xs = u64_to_dec(x as u64);
    s.append(xs.as_str());
    s.append("/");
    let ys = u64_to_dec(y as u64);
    s.append(ys.as_str());
    s.append(".pbf");
    proof {
        assert(s@ =~= spec_s3_key(config.prefix@, table_name@, z, x, y));
    }
    s
}

/// What a read that found an object must do with it.
#[derive(Clone, Copy, Debug, PartialEq, Eq, Structural)]
pub enum ReadDecision {
    /// The object is still within its lifetime: hand its bytes out.
    Deliver,
    /// The object's deadline has passed: delete it as a side effect of
    /// this read and report the key absent.
    DeleteExpired,
}

/// The view of an optional metadata string.
pub open spec fn opt_string_view(o: Option<&String>) -> Option<Seq<char>> {
    match o {
        Some(s) => Some(s@),
        None => None,
    }
}

/// What to do with a found object given its `expires_at` metadata, if any,
/// and the clock. An object is expired strictly after its deadline; one
/// with no deadline, or an unreadable one, is kept (the store's sweep is
/// this read path, and an object without a legible deadline never expires).
pub open spec fn spec_read_decision(meta: Option<Seq<char>>, now: u64) -> ReadDecision {
    match meta {
        None => ReadDecision::Deliver,
        Some(m) => match spec_parse_u64(m) {
            None => ReadDecision::Deliver,
            Some(e) => if now > e {
                ReadDecision::DeleteExpired
            } else {
                ReadDecision::Deliver
            },
        },
    }
}

/// Decide what a read that found an object does, from the object's
/// `expires_at` metadata value and the current epoch second.
pub fn s3_read_decision(expires_meta: Option<&String>, now: u64) -> (d: ReadDecision)
    ensures
        d == spec_read_decision(opt_string_view(expires_meta), now),
{
    match expires_meta {
        None => ReadDecision::Deliver,
        Some(m) => match parse_u64_dec(m.as_str()) {
            None => ReadDecision::Deliver,
            Some(e) => if now > e {
                ReadDecision::DeleteExpired
            } else {
                ReadDecision::Deliver
            },
        },
    }
}

/// Law: an object stamped with deadline `e` by this crate is deleted by
/// the read that finds it strictly after `e`, and delivered up to and
/// including `e`.
pub proof fn lemma_stamped_object_expiry(e: u64, now: u64)
    ensures
        spec_read_decision(Some(spec_udec(e as nat)), now) == if now > e {
            ReadDecision::DeleteExpired
        } else {
            ReadDecision::Deliver
        },
{
    lemma_dec_roundtrip(e);
}

/// Everything the embedding program needs to store one tile durably:
/// where, and with which metadata. The upload itself carries the binary
/// vector-tile content type.
pub struct S3PutPlan {
    /// The object key, `{prefix}/{table}/{z}/{x}/{y}.pbf`.
    pub key: String,
    /// The absolute deadline, `now + ttl`, in epoch seconds.
    pub expires_at: u64,
    /// The same deadline as the decimal `expires_at` metadata value.
    pub expires_at_text: String,
    /// The `table_name` metadata value.
    pub source: String,
}

/// The content type every stored tile is uploaded with.
pub fn tile_content_type() -> (s: &'static str)
    ensures
        s@ == "application/x-protobuf"@,
{
    "application/x-protobuf"
}

/// The durable tier itself: its configuration plus whether a usable
/// object-store client exists. When credentials were absent at startup the
/// tier is disabled and degrades to a permanent miss — never an error.
pub struct PersistentTier {
    config: S3Config,
    enabled: bool,
}

impl PersistentTier {
    /// Whether a usable client exists.
    pub closed spec fn is_enabled(self) -> bool {
        self.enabled
    }

    /// The configured bucket name.
    pub closed spec fn bucket(self) -> Seq<char> {
        self.config.bucket@
    }

    /// The configured key prefix.
    pub closed spec fn prefix(self) -> Seq<char> {
        self.config.prefix@
    }

    /// The configured per-object TTL in seconds.
    pub closed spec fn ttl(self) -> u64 {
        self.config.ttl_seconds
    }

    /// Build the tier. `enabled` says whether the embedding program could
    /// construct an object-store client (credentials present).
    pub fn new(config: S3Config, enabled: bool) -> (t: PersistentTier)
        ensures
            t.is_enabled() == enabled,
            t.bucket() == config.bucket@,
            t.prefix() == config.prefix@,
            t.ttl() == config.ttl_seconds,
    {
        PersistentTier { config, enabled }
    }

    /// The bucket to address, for the embedding program.
    pub fn bucket_name(&self) -> (r: &String)
        ensures
            r@ == self.bucket(),
    {
        &self.config.bucket
    }

    /// The tier's configuration.
    pub fn config_ref(&self) -> (c: &S3Config)
        ensures
            c.prefix@ == self.prefix(),
            c.bucket@ == self.bucket(),
            c.ttl_seconds == self.ttl(),
    {
        &self.config
    }

    /// Where a read for this tile must look: the object key, or nothing
    /// when the tier is disabled and the read is skipped outright.
    pub fn read_plan(&self, table_name: &str, z: u32, x: u32, y: u32) -> (r: Option<String>)
        ensures
            self.is_enabled() ==> (r matches Some(k) && k@ == spec_s3_key(
                self.prefix(),
                table_name@,
                z,
                x,
                y,
            )),
            !self.is_enabled() ==> r is None,
    {
        if self.enabled {
            Some(generate_s3_key(&self.config, table_name, z, x, y))
        } else {
            None
        }
    }

    /// How to store this tile: key, deadline `now + ttl`, and the metadata
    /// values, or nothing when the tier is disabled and the write is
    /// skipped. The deadline must fit the clock's 64 bits.
    pub fn put_plan(&self, table_name: &str, z: u32, x: u32, y: u32, now: u64) -> (r: Option<
        S3PutPlan,
    >)
        requires
            now + self.ttl() <= u64::MAX,
        ensures
            self.is_enabled() ==> (r matches Some(p) && p.key@ == spec_s3_key(
                self.prefix(),
                table_name@,
                z,
                x,
                y,
            ) && p.expires_at == now + self.ttl() && p.expires_at_text@ == spec_udec(
                (now + self.ttl()) as nat,
            ) && p.source@ == table_name@),
            !self.is_enabled() ==> r is None,
    {
        if self.enabled {
            let expires_at = now + self.config.ttl_seconds;
            Some(
                S3PutPlan {
                    key: generate_s3_key(&self.config, table_name, z, x, y),
                    expires_at,
                    expires_at_text: u64_to_dec(expires_at),
                    source: table_name.to_owned(),
                },
            )
        } else {
            None
        }
    }

    /// Which object an invalidation must delete, or nothing when the tier
    /// is disabled. Deleting an absent object is not an error.
    pub fn delete_plan(&self, table_name: &str, z: u32, x: u32, y: u32) -> (r: Option<String>)
        ensures
            self.is_enabled() ==> (r matches Some(k) && k@ == spec_s3_key(
                self.prefix(),
                table_name@,
                z,
                x,
                y,
            )),
            !self.is_enabled() ==> r is None,
    {
        if self.enabled {
            Some(generate_s3_key(&self.config, table_name, z, x, y))
        } else {
            None
        }
    }
}

} // verus!
