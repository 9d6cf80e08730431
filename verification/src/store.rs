//! The credential store: how one credential record is laid out as the single
//! stored value, and how a raw read maps to a load outcome. The layout is a
//! two-digit decimal header giving the ssid's byte length, then the ssid
//! bytes, then the password bytes; the empty value is the cleared marker and
//! decodes to "not found", never to a malformed-record error. Encoding and
//! decoding are inverse on every well-formed credential, stated and proved
//! below.

use vstd::prelude::*;

use crate::credential::Credential;
use crate::credential::MAX_PASSWORD_LEN;
use crate::credential::MAX_SSID_LEN;
use crate::credential::has_nul;
use crate::credential::valid_password;
use crate::credential::valid_ssid;
use crate::storage::StorageError;
use vstd::arithmetic::div_mod::lemma_fundamental_div_mod;
use vstd::arithmetic::div_mod::lemma_mod_division_less_than_divisor;

verus! {

/// Why a load produced no credential: the key was absent (the cleared
/// marker), the storage layer failed, or the stored bytes were not a
/// well-formed record. The first is expected at first boot; the others are
/// surfaced distinctly but all mean "no usable credential".
#[derive(Clone, Copy, Debug, PartialEq, Eq, Structural)]
pub enum LoadError {
    NotFound,
    Storage(StorageError),
    Malformed,
}

/// An ASCII decimal digit.
pub open spec fn is_ascii_digit(b: u8) -> bool {
    0x30 <= b <= 0x39
}

/// The stored form of a credential: two header digits for the ssid length,
/// then ssid, then password.
pub open spec fn encode_spec(ssid: Seq<u8>, password: Seq<u8>) -> Seq<u8> {
    seq![(0x30 + ssid.len() / 10) as u8, (0x30 + ssid.len() % 10) as u8] + ssid + password
}

/// The ssid length a record's header claims.
pub open spec fn record_ssid_len(s: Seq<u8>) -> int {
    (s[0] - 0x30) * 10 + (s[1] - 0x30)
}

/// A non-empty value that parses as a record: digit header, claimed ssid
/// length within caps, enough bytes for it, password remainder within caps,
/// and no NUL anywhere in the payload.
pub open spec fn well_formed_record(s: Seq<u8>) -> bool {
    &&& s.len() >= 2
    &&& is_ascii_digit(s[0])
    &&& is_ascii_digit(s[1])
    &&& record_ssid_len(s) <= MAX_SSID_LEN
    &&& s.len() >= 2 + record_ssid_len(s)
    &&& s.len() - 2 - record_ssid_len(s) <= MAX_PASSWORD_LEN
    &&& !has_nul(s.subrange(2, s.len() as int))
}

/// The ssid bytes of a well-formed record.
pub open spec fn record_ssid(s: Seq<u8>) -> Seq<u8> {
    s.subrange(2, 2 + record_ssid_len(s))
}

/// The password bytes of a well-formed record.
pub open spec fn record_password(s: Seq<u8>) -> Seq<u8> {
    s.subrange(2 + record_ssid_len(s), s.len() as int)
}

/// What decoding a stored value yields: the empty value is the cleared
/// marker, a well-formed record yields its two fields, anything else is
/// malformed.
pub open spec fn decode_spec(s: Seq<u8>) -> Result<(Seq<u8>, Seq<u8>), LoadError> {
    if s.len() == 0 {
        Err(LoadError::NotFound)
    } else if well_formed_record(s) {
        Ok((record_ssid(s), record_password(s)))
    } else {
        Err(LoadError::Malformed)
    }
}

/// The storage key (and namespace) under which the one credential record
/// lives.
pub fn credential_key() -> (k: &'static str)
    ensures
        k@ == "netcfg"@,
{
    "netcfg"
}

/// Encode a credential for storage.
pub fn encode_credential(c: &Credential) -> (r: Vec<u8>)
    requires
        c.wf(),
    ensures
        r@ == encode_spec(c.ssid@, c.password@),
        r@.len() == 2 + c.ssid@.len() + c.password@.len(),
{
    let n = c.ssid.len();
    let mut out: Vec<u8> = Vec::new();
    out.push(0x30u8 + (n / 10) as u8);
    out.push(0x30u8 + (n % 10) as u8);
    assert(out@ =~= seq![
        (0x30 + c.ssid@.len() / 10) as u8,
        (0x30 + c.ssid@.len() % 10) as u8,
    ]);
    let ghost header = out@;
    let mut i: usize = 0;
    while i < c.ssid.len()
        invariant
            i <= c.ssid@.len(),
            c.wf(),
            out@ == header + c.ssid@.subrange(0, i as int),
        decreases c.ssid@.len() - i,
    {
        out.push(c.ssid[i]);
        proof {
            assert(header + c.ssid@.subrange(0, (i + 1) as int) =~= (header + c.ssid@.subrange(
                0,
                i as int,
            )).push(c.ssid@[i as int]));
        }
        i = i + 1;
    }
    assert(out@ =~= header + c.ssid@);
    let ghost prefix = out@;
    let mut j: usize = 0;
    while j < c.password.len()
        invariant
            j <= c.password@.len(),
            c.wf(),
            out@ == prefix + c.password@.subrange(0, j as int),
        decreases c.password@.len() - j,
    {
        out.push(c.password[j]);
        proof {
            assert(prefix + c.password@.subrange(0, (j + 1) as int) =~= (prefix
                + c.password@.subrange(0, j as int)).push(c.password@[j as int]));
        }
        j = j + 1;
    }
    assert(out@ =~= encode_spec(c.ssid@, c.password@));
    out
}

/// The stored value that `clear` writes: the empty marker, which a later
/// load reports as "not found".
pub fn clear_marker() -> (r: Vec<u8>)
    ensures
        r@.len() == 0,
        decode_spec(r@) == Err::<(Seq<u8>, Seq<u8>), LoadError>(LoadError::NotFound),
{
    Vec::new()
}

/// Decode a stored value back into a credential, exactly as `decode_spec`
/// reads it.
pub fn decode_credential(data: &Vec<u8>) -> (r: Result<Credential, LoadError>)
    ensures
        decode_spec(data@) matches Ok(p) ==> (r matches Ok(c) && c.wf() && c.ssid@ == p.0
            && c.password@ == p.1),
        decode_spec(data@) matches Err(e) ==> r == Err::<Credential, LoadError>(e),
{
    let len = data.len();
    if len == 0 {
        return Err(LoadError::NotFound);
    }
    if len < 2 {
        return Err(LoadError::Malformed);
    }
    let d0 = data[0];
    let d1 = data[1];
    if d0 < 0x30 || d0 > 0x39 || d1 < 0x30 || d1 > 0x39 {
        return Err(LoadError::Malformed);
    }
    let n: usize = ((d0 - 0x30) as usize) * 10 + ((d1 - 0x30) as usize);
    assert(n == record_ssid_len(data@));
    if n > MAX_SSID_LEN {
        return Err(LoadError::Malformed);
    }
    if len - 2 < n {
        return Err(LoadError::Malformed);
    }
    let plen = len - 2 - n;
    if plen > MAX_PASSWORD_LEN {
        return Err(LoadError::Malformed);
    }
    let mut k: usize = 2;
    while k < len
        invariant
            2 <= k <= len,
            len == data@.len(),
            forall|j: int| 2 <= j < k ==> data@[j] != 0u8,
        decreases len - k,
    {
        if data[k] == 0 {
            proof {
                assert(data@.subrange(2, len as int)[k - 2] == 0u8);
            }
            return Err(LoadError::Malformed);
        }
        k = k + 1;
    }
    proof {
        assert forall|j: int| 0 <= j < data@.subrange(2, len as int).len() implies data@.subrange(
            2,
            len as int,
        )[j] != 0u8 by {
            assert(data@.subrange(2, len as int)[j] == data@[j + 2]);
        }
        assert(well_formed_record(data@));
    }
    let mut ssid: Vec<u8> = Vec::new();
    let mut i: usize = 0;
    while i < n
        invariant
            i <= n,
            n + 2 <= len,
            len == data@.len(),
            ssid@ == data@.subrange(2, 2 + i as int),
        decreases n - i,
    {
        ssid.push(data[2 + i]);
        proof {
            assert(data@.subrange(2, 2 + (i + 1) as int) =~= data@.subrange(2, 2 + i as int).push(
                data@[2 + i as int],
            ));
        }
        i = i + 1;
    }
    let mut password: Vec<u8> = Vec::new();
    let mut j: usize = 0;
    while j < plen
        invariant
            j <= plen,
            n + 2 <= len,
            plen == len - 2 - n,
            len == data@.len(),
            password@ == data@.subrange(2 + n as int, 2 + n as int + j as int),
        decreases plen - j,
    {
        password.push(data[2 + n + j]);
        proof {
            assert(data@.subrange(2 + n as int, 2 + n as int + (j + 1) as int) =~= data@.subrange(
                2 + n as int,
                2 + n as int + j as int,
            ).push(data@[2 + n as int + j as int]));
        }
        j = j + 1;
    }
    let c = Credential { ssid, password };
    proof {
        assert(c.ssid@ == record_ssid(data@));
        assert(c.password@ == record_password(data@));
        assert forall|t: int| 0 <= t < c.ssid@.len() implies c.ssid@[t] != 0u8 by {
            assert(c.ssid@[t] == data@[2 + t]);
        }
        assert forall|t: int| 0 <= t < c.password@.len() implies c.password@[t] != 0u8 by {
            assert(c.password@[t] == data@[2 + n + t]);
        }
        assert(c.wf());
    }
    Ok(c)
}

/// Map a raw storage read to the load outcome: a storage failure is surfaced
/// as such, and bytes that came back are decoded.
pub fn load_from(raw: Result<Vec<u8>, StorageError>) -> (r: Result<Credential, LoadError>)
    ensures
        raw matches Err(e) ==> r == Err::<Credential, LoadError>(LoadError::Storage(e)),
        raw matches Ok(d) ==> ((decode_spec(d@) matches Ok(p) ==> (r matches Ok(c) && c.wf()
            && c.ssid@ == p.0 && c.password@ == p.1)) && (decode_spec(d@) matches Err(e) ==> r
            == Err::<Credential, LoadError>(e))),
{
    match raw {
        Err(e) => Err(LoadError::Storage(e)),
        Ok(d) => decode_credential(&d),
    }
}

/// Saving then loading restores the record: decoding the encoding of any
/// well-formed credential yields exactly its fields, including at the
/// maximum ssid and password lengths.
pub proof fn lemma_save_then_load(ssid: Seq<u8>, password: Seq<u8>)
    requires
        valid_ssid(ssid),
        valid_password(password),
    ensures
        decode_spec(encode_spec(ssid, password)) == Ok::<(Seq<u8>, Seq<u8>), LoadError>(
            (ssid, password),
        ),
{
    let enc = encode_spec(ssid, password);
    let n = ssid.len() as int;
    lemma_fundamental_div_mod(n, 10);
    lemma_mod_division_less_than_divisor(n, 10);
    assert(enc[0] == (0x30 + n / 10) as u8);
    assert(enc[1] == (0x30 + n % 10) as u8);
    assert(0 <= n / 10 <= 3);
    assert(record_ssid_len(enc) == n);
    assert(enc.subrange(2, enc.len() as int) =~= ssid + password);
    assert forall|i: int| 0 <= i < (ssid + password).len() implies (ssid + password)[i] != 0u8 by {
        if i < ssid.len() {
            assert((ssid + password)[i] == ssid[i]);
        } else {
            assert((ssid + password)[i] == password[i - ssid.len()]);
        }
    }
    assert(well_formed_record(enc));
    assert(record_ssid(enc) =~= ssid);
    assert(record_password(enc) =~= password);
}

/// Clearing then loading reports "not found", never a malformed-record
/// error: the cleared marker is the empty value, and decoding the empty
/// value is exactly the "not found" outcome.
pub proof fn lemma_clear_then_load()
    ensures
        decode_spec(Seq::<u8>::empty()) == Err::<(Seq<u8>, Seq<u8>), LoadError>(
            LoadError::NotFound,
        ),
{
}

} // verus!
