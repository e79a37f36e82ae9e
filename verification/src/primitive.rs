//! Addresses, rollup IDs and asset denominations.
use vstd::prelude::*;
use vstd::string::*;
use vstd::utf8::encode_utf8;

use crate::map::Dup;
use crate::text::{hex_lower, push_hex, string_from};

verus! {

/// The length of the raw bytes of an address.
pub const ADDRESS_LEN: usize = 20;

/// The raw bytes of an account address.
pub type AddressBytes = [u8; 20];

/// The ID of an asset: the 32-byte hash of its trace-prefixed denomination.
pub type IbcPrefixed = [u8; 32];

/// The ID of a rollup.
pub type RollupId = [u8; 32];

/// The ID of a transaction: the hash of its encoded bytes.
pub type TransactionId = [u8; 32];

/// A bech32m address: raw bytes under a human-readable prefix.
pub struct Address {
    pub bytes: AddressBytes,
    pub prefix: String,
}

impl Address {
    pub fn bytes(&self) -> (r: AddressBytes)
        ensures
            r == self.bytes,
    {
        self.bytes
    }

    /// A copy of the address.
    pub fn dup(&self) -> (r: Address)
        ensures
            r.bytes == self.bytes,
            r.prefix@ == self.prefix@,
    {
        Address { bytes: self.bytes, prefix: self.prefix.clone() }
    }
}

/// A `port/channel` pair of an IBC denomination trace.
pub struct TraceSegment {
    pub port: String,
    pub channel: String,
}

impl View for TraceSegment {
    type V = (Seq<char>, Seq<char>);

    open spec fn view(&self) -> (Seq<char>, Seq<char>) {
        (self.port@, self.channel@)
    }
}

/// A denomination written with its IBC trace, such as `transfer/channel-0/utia` or `nria`.
pub struct TracePrefixed {
    pub trace: Vec<TraceSegment>,
    pub base_denom: String,
}

/// The view of a trace-prefixed denomination: its `(port, channel)` segments and base.
pub struct TraceView {
    pub trace: Seq<(Seq<char>, Seq<char>)>,
    pub base_denom: Seq<char>,
}

impl View for TracePrefixed {
    type V = TraceView;

    open spec fn view(&self) -> TraceView {
        TraceView {
            trace: self.trace@.map_values(|s: TraceSegment| s@),
            base_denom: self.base_denom@,
        }
    }
}

/// An asset denomination: either trace-prefixed or given by its ID.
pub enum Denom {
    TracePrefixed(TracePrefixed),
    IbcPrefixed(IbcPrefixed),
}

/// The view of a denomination.
pub enum DenomView {
    TracePrefixed(TraceView),
    IbcPrefixed(Seq<u8>),
}

/// The view of a denomination.
pub open spec fn denom_view(d: Denom) -> DenomView {
    match d {
        Denom::TracePrefixed(t) => DenomView::TracePrefixed(t@),
        Denom::IbcPrefixed(id) => DenomView::IbcPrefixed(id@),
    }
}

/// The text of a sequence of trace segments: `port/channel/` for each.
pub open spec fn segments_text(s: Seq<(Seq<char>, Seq<char>)>) -> Seq<char>
    decreases s.len(),
{
    if s.len() == 0 {
        Seq::empty()
    } else {
        segments_text(s.drop_last()) + s.last().0 + seq!['/'] + s.last().1 + seq!['/']
    }
}

/// The text of a trace-prefixed denomination.
pub open spec fn trace_text(t: TraceView) -> Seq<char> {
    segments_text(t.trace) + t.base_denom
}

/// What SHA-256 returns on `data`.
pub uninterp spec fn sha256_digest(data: Seq<u8>) -> Seq<u8>;

/// The ID of a denomination: the SHA-256 hash of the UTF-8 bytes of its text, or the ID itself.
pub open spec fn denom_id(d: Denom) -> Seq<u8> {
    match d {
        Denom::TracePrefixed(t) => sha256_digest(encode_utf8(trace_text(t@))),
        Denom::IbcPrefixed(id) => id@,
    }
}

/// Calls `sha2::Sha256::digest`; its result is the named SHA-256 hash of `data`.
#[verifier::external_body]
pub(crate) fn sha256(data: &[u8]) -> (r: [u8; 32])
    ensures
        r@ == sha256_digest(data@),
{
    <sha2::Sha256 as sha2::Digest>::digest(data).into()
}

impl Dup for TraceSegment {
    fn dup(&self) -> (r: Self) {
        TraceSegment { port: self.port.clone(), channel: self.channel.clone() }
    }
}

impl Dup for TracePrefixed {
    fn dup(&self) -> (r: Self) {
        let mut trace: Vec<TraceSegment> = Vec::new();
        let mut i: usize = 0;
        while i < self.trace.len()
            invariant
                0 <= i <= self.trace@.len(),
                trace@.len() == i,
                forall|j: int| 0 <= j < i ==> #[trigger] trace@[j]@ == self.trace@[j]@,
            decreases self.trace@.len() - i,
        {
            let seg = self.trace[i].dup();
            trace.push(seg);
            i = i + 1;
        }
        assert(trace@.map_values(|s: TraceSegment| s@) =~= self.trace@.map_values(|s: TraceSegment| s@));
        TracePrefixed { trace, base_denom: self.base_denom.clone() }
    }
}

impl TracePrefixed {
    /// The text of the denomination, `port/channel/.../base_denom`.
    pub fn text(&self) -> (r: String)
        ensures
            r@ == trace_text(self@),
    {
        let mut s = String::new();
        let mut i: usize = 0;
        while i < self.trace.len()
            invariant
                0 <= i <= self.trace@.len(),
                s@ == segments_text(self@.trace.subrange(0, i as int)),
            decreases self.trace@.len() - i,
        {
            let seg = &self.trace[i];
            s.append(seg.port.as_str());
            proof { reveal_strlit("/"); }
            s.append("/");
            s.append(seg.channel.as_str());
            s.append("/");
            proof {
                let post = self@.trace.subrange(0, i + 1);
                assert(post.drop_last() =~= self@.trace.subrange(0, i as int));
                assert(post.last() == seg@);
            }
            i = i + 1;
        }
        assert(self@.trace.subrange(0, self@.trace.len() as int) =~= self@.trace);
        s.append(self.base_denom.as_str());
        s
    }

    /// Whether the first segment of the trace names `port`.
    pub fn has_leading_port(&self, port: &String) -> (r: bool)
        ensures
            r == (self.trace@.len() > 0 && self.trace@[0].port@ == port@),
    {
        if self.trace.len() == 0 {
            false
        } else {
            self.trace[0].port == *port
        }
    }

    /// Whether the first segment of the trace names `channel`.
    pub fn has_leading_channel(&self, channel: &String) -> (r: bool)
        ensures
            r == (self.trace@.len() > 0 && self.trace@[0].channel@ == channel@),
    {
        if self.trace.len() == 0 {
            false
        } else {
            self.trace[0].channel == *channel
        }
    }
}

impl Denom {
    /// The ID of the asset.
    pub fn to_ibc_prefixed(&self) -> (r: IbcPrefixed)
        ensures
            r@ == denom_id(*self),
    {
        match self {
            Denom::TracePrefixed(t) => {
                let text = t.text();
                sha256(text.as_str().as_bytes())
            },
            Denom::IbcPrefixed(id) => *id,
        }
    }
}

/// The text of a denomination: its trace-prefixed text, or `ibc/` and the hex of its ID.
pub open spec fn denom_text(d: Denom) -> Seq<char> {
    match d {
        Denom::TracePrefixed(t) => trace_text(t@),
        Denom::IbcPrefixed(id) => seq!['i', 'b', 'c', '/'] + hex_lower(id@),
    }
}

impl Denom {
    /// The text of the denomination.
    pub fn to_text(&self) -> (r: String)
        ensures
            r@ == denom_text(*self),
    {
        match self {
            Denom::TracePrefixed(t) => t.text(),
            Denom::IbcPrefixed(id) => {
                let mut s = string_from("ibc/");
                proof {
                    reveal_strlit("ibc/");
                }
                push_hex(&mut s, id);
                s
            },
        }
    }
}

/// What `bech32::encode_lower::<Bech32m>` returns for `prefix`, parsed by `bech32::Hrp::parse`,
/// and `bytes`; none where the prefix does not parse or the encoding fails.
pub uninterp spec fn bech32m_text(prefix: Seq<char>, bytes: Seq<u8>) -> Option<Seq<char>>;

/// What `bech32::encode_lower::<Bech32>` returns for `prefix`, parsed by `bech32::Hrp::parse`,
/// and `bytes`; none where the prefix does not parse or the encoding fails.
pub uninterp spec fn bech32_text(prefix: Seq<char>, bytes: Seq<u8>) -> Option<Seq<char>>;

/// The view of an optional string.
pub open spec fn opt_text(o: Option<String>) -> Option<Seq<char>> {
    match o {
        Some(s) => Some(s@),
        None => None,
    }
}

/// Parses `prefix` with `bech32::Hrp::parse` and encodes `bytes` under it with
/// `bech32::encode_lower::<Bech32m>`; the result is the named bech32m text.
#[verifier::external_body]
pub(crate) fn encode_bech32m(prefix: &str, bytes: &[u8]) -> (r: Option<String>)
    ensures
        opt_text(r) == bech32m_text(prefix@, bytes@),
{
    match bech32::Hrp::parse(prefix) {
        Ok(hrp) => bech32::encode_lower::<bech32::Bech32m>(hrp, bytes).ok(),
        Err(_) => None,
    }
}

/// Parses `prefix` with `bech32::Hrp::parse` and encodes `bytes` under it with
/// `bech32::encode_lower::<Bech32>`; the result is the named bech32 text.
#[verifier::external_body]
pub(crate) fn encode_bech32(prefix: &str, bytes: &[u8]) -> (r: Option<String>)
    ensures
        opt_text(r) == bech32_text(prefix@, bytes@),
{
    match bech32::Hrp::parse(prefix) {
        Ok(hrp) => bech32::encode_lower::<bech32::Bech32>(hrp, bytes).ok(),
        Err(_) => None,
    }
}

/// A character is allowed in an address prefix: ASCII 33 to 126.
pub open spec fn prefix_char_ok(c: char) -> bool {
    33 <= c as int <= 126
}

/// A valid human-readable address prefix: 1 to 83 characters in ASCII 33..=126, not mixing
/// upper and lower case letters.
pub open spec fn valid_prefix(p: Seq<char>) -> bool {
    &&& 1 <= p.len() <= 83
    &&& forall|i: int| 0 <= i < p.len() ==> prefix_char_ok(#[trigger] p[i])
    &&& !((exists|i: int| 0 <= i < p.len() && 'a' <= #[trigger] p[i] <= 'z') && (exists|
        j: int,
    | 0 <= j < p.len() && 'A' <= #[trigger] p[j] <= 'Z'))
}

/// Whether `prefix` is a valid human-readable address prefix.
pub fn is_valid_prefix(prefix: &str) -> (r: bool)
    ensures
        r == valid_prefix(prefix@),
{
    let n = prefix.unicode_len();
    if n < 1 || n > 83 {
        return false;
    }
    let mut has_lower = false;
    let mut has_upper = false;
    let mut i: usize = 0;
    while i < n
        invariant
            n == prefix@.len(),
            1 <= n <= 83,
            0 <= i <= n,
            forall|k: int| 0 <= k < i ==> prefix_char_ok(#[trigger] prefix@[k]),
            has_lower == (exists|k: int| 0 <= k < i && 'a' <= #[trigger] prefix@[k] <= 'z'),
            has_upper == (exists|k: int| 0 <= k < i && 'A' <= #[trigger] prefix@[k] <= 'Z'),
        decreases n - i,
    {
        let c = prefix.get_char(i);
        if !((c as u32) >= 33 && (c as u32) <= 126) {
            assert(!prefix_char_ok(prefix@[i as int]));
            return false;
        }
        if 'a' <= c && c <= 'z' {
            has_lower = true;
        }
        if 'A' <= c && c <= 'Z' {
            has_upper = true;
        }
        i = i + 1;
    }
    !(has_lower && has_upper)
}

/// Builds an address from raw bytes and a prefix, failing if the prefix is not valid.
pub fn try_build_address(bytes: AddressBytes, prefix: &str) -> (r: Option<Address>)
    ensures
        match r {
            Some(a) => valid_prefix(prefix@) && a.bytes == bytes && a.prefix@ == prefix@,
            None => !valid_prefix(prefix@),
        },
{
    if is_valid_prefix(prefix) {
        Some(Address { bytes, prefix: String::from_str(prefix) })
    } else {
        None
    }
}

/// A literal string as an owned `String`.
pub fn owned(lit: &str) -> (r: String)
    ensures
        r@ == lit@,
{
    string_from(lit)
}

} // verus!
