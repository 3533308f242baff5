//! Advertising and scan-response payload encoding.
//!
//! A payload is a sequence of advertising data structures, each encoded on
//! the wire as a length byte (one plus the number of bytes after the type
//! byte), a type byte, and the structure's data. Legacy advertising limits a
//! payload to 31 bytes; encoding fails explicitly when the content does not
//! fit, it never truncates silently.

use vstd::prelude::*;

use crate::copy_bytes;

verus! {

/// Upper bound, in bytes, of one advertising or scan-response payload.
pub const ADV_PAYLOAD_MAX: usize = 31;

/// Flags bit: LE general discoverable mode.
pub const LE_GENERAL_DISCOVERABLE: u8 = 0x02;

/// Flags bit: BR/EDR (classic Bluetooth) not supported.
pub const BR_EDR_NOT_SUPPORTED: u8 = 0x04;

/// The flags byte this peripheral advertises:
/// general discoverable (0x02) together with BR/EDR not supported (0x04).
pub const ADV_FLAGS: u8 = 0x06;

/// Company identifier carried in the vendor-specific scan-response entry.
pub const COMPANY_IDENTIFIER: u16 = 0x0245;

/// Why a payload could not be encoded.
#[derive(Clone, Copy, Debug, PartialEq, Eq, Structural)]
pub enum AdvError {
    /// The encoded structures together exceed the payload limit.
    DoesNotFit,
}

/// One advertising data structure, owning its content.
pub enum AdStructure {
    /// Device flags and baseband capabilities.
    Flags(u8),
    /// Complete list of 128-bit service UUIDs, each 16 bytes in the
    /// little-endian order used on the air.
    CompleteServiceUuids128(Vec<Vec<u8>>),
    /// The full (unabbreviated) device name.
    CompleteLocalName(Vec<u8>),
    /// Vendor-specific data under a company identifier.
    ManufacturerSpecificData {
        /// Registered company identifier.
        company_identifier: u16,
        /// Vendor payload, possibly empty.
        payload: Vec<u8>,
    },
}

impl AdStructure {
    /// Structural validity: every advertised service UUID is 16 bytes.
    pub open spec fn wf(&self) -> bool {
        match self {
            AdStructure::CompleteServiceUuids128(us) => forall|i: int|
                0 <= i < us@.len() ==> #[trigger] us@[i]@.len() == 16,
            _ => true,
        }
    }
}

/// The wire type byte of one advertising structure.
pub open spec fn spec_ad_type(ad: AdStructure) -> u8 {
    match ad {
        AdStructure::Flags(_) => 0x01,
        AdStructure::CompleteServiceUuids128(_) => 0x07,
        AdStructure::CompleteLocalName(_) => 0x09,
        AdStructure::ManufacturerSpecificData { .. } => 0xff,
    }
}

/// The concatenated bytes of a list of 128-bit UUIDs.
pub open spec fn spec_uuids_bytes(us: Seq<Vec<u8>>) -> Seq<u8>
    decreases us.len(),
{
    if us.len() == 0 {
        Seq::empty()
    } else {
        us[0]@ + spec_uuids_bytes(us.drop_first())
    }
}

/// The data bytes of one advertising structure: everything that follows the
/// type byte on the wire.
pub open spec fn spec_ad_data(ad: AdStructure) -> Seq<u8> {
    match ad {
        AdStructure::Flags(f) => seq![f],
        AdStructure::CompleteServiceUuids128(us) => spec_uuids_bytes(us@),
        AdStructure::CompleteLocalName(name) => name@,
        AdStructure::ManufacturerSpecificData { company_identifier, payload } => seq![
            (company_identifier % 256) as u8,
            (company_identifier / 256) as u8,
        ] + payload@,
    }
}

/// The full encoding of one advertising structure: length byte (one plus the
/// data length, counting the type byte), type byte, then the data.
pub open spec fn spec_ad_encoding(ad: AdStructure) -> Seq<u8> {
    seq![(spec_ad_data(ad).len() + 1) as u8, spec_ad_type(ad)] + spec_ad_data(ad)
}

/// The encoding of a list of advertising structures, in order.
pub open spec fn spec_encode_ads(ads: Seq<AdStructure>) -> Seq<u8>
    decreases ads.len(),
{
    if ads.len() == 0 {
        Seq::empty()
    } else {
        spec_ad_encoding(ads[0]) + spec_encode_ads(ads.drop_first())
    }
}

proof fn lemma_uuids_bytes_push(us: Seq<Vec<u8>>, u: Vec<u8>)
    ensures
        spec_uuids_bytes(us.push(u)) == spec_uuids_bytes(us) + u@,
    decreases us.len(),
{
    if us.len() == 0 {
        let e = Seq::<Vec<u8>>::empty();
        assert(us.push(u).drop_first() =~= e);
        assert(spec_uuids_bytes(e) =~= Seq::<u8>::empty());
        assert(us.push(u)[0] == u);
        assert(spec_uuids_bytes(us.push(u)) == u@ + spec_uuids_bytes(e));
        assert(spec_uuids_bytes(us.push(u)) =~= spec_uuids_bytes(us) + u@);
    } else {
        assert(us.push(u).drop_first() =~= us.drop_first().push(u));
        lemma_uuids_bytes_push(us.drop_first(), u);
        assert(us.push(u)[0] == us[0]);
        assert(spec_uuids_bytes(us.push(u)) == us[0]@ + spec_uuids_bytes(us.drop_first().push(u)));
        assert(spec_uuids_bytes(us.push(u)) =~= spec_uuids_bytes(us) + u@);
    }
}

proof fn lemma_encode_ads_push(ads: Seq<AdStructure>, ad: AdStructure)
    ensures
        spec_encode_ads(ads.push(ad)) == spec_encode_ads(ads) + spec_ad_encoding(ad),
    decreases ads.len(),
{
    if ads.len() == 0 {
        let e = Seq::<AdStructure>::empty();
        assert(ads.push(ad).drop_first() =~= e);
        assert(spec_encode_ads(e) =~= Seq::<u8>::empty());
        assert(ads.push(ad)[0] == ad);
        assert(spec_encode_ads(ads.push(ad)) == spec_ad_encoding(ad) + spec_encode_ads(e));
        assert(spec_encode_ads(ads.push(ad)) =~= spec_encode_ads(ads) + spec_ad_encoding(ad));
    } else {
        assert(ads.push(ad).drop_first() =~= ads.drop_first().push(ad));
        lemma_encode_ads_push(ads.drop_first(), ad);
        assert(ads.push(ad)[0] == ads[0]);
        assert(spec_encode_ads(ads.push(ad)) == spec_ad_encoding(ads[0]) + spec_encode_ads(
            ads.drop_first().push(ad),
        ));
        assert(spec_encode_ads(ads.push(ad)) =~= spec_encode_ads(ads) + spec_ad_encoding(ad));
    }
}

proof fn lemma_encode_ads_split(ads: Seq<AdStructure>, i: int)
    requires
        0 <= i <= ads.len(),
    ensures
        spec_encode_ads(ads) == spec_encode_ads(ads.take(i)) + spec_encode_ads(ads.skip(i)),
    decreases i,
{
    if i == 0 {
        assert(ads.take(0) =~= Seq::<AdStructure>::empty());
        assert(ads.skip(0) =~= ads);
        assert(spec_encode_ads(ads) =~= spec_encode_ads(ads.take(0)) + spec_encode_ads(ads.skip(0)));
    } else {
        lemma_encode_ads_split(ads, i - 1);
        assert(ads.take(i) =~= ads.take(i - 1).push(ads[i - 1]));
        lemma_encode_ads_push(ads.take(i - 1), ads[i - 1]);
        assert(ads.skip(i - 1).drop_first() =~= ads.skip(i));
        assert(ads.skip(i - 1)[0] == ads[i - 1]);
        assert(spec_encode_ads(ads.skip(i - 1)) == spec_ad_encoding(ads[i - 1]) + spec_encode_ads(
            ads.skip(i),
        ));
        assert(spec_encode_ads(ads) =~= spec_encode_ads(ads.take(i)) + spec_encode_ads(ads.skip(i)));
    }
}

/// The wire type byte of one advertising structure.
fn ad_type(ad: &AdStructure) -> (t: u8)
    ensures
        t == spec_ad_type(*ad),
{
    match ad {
        AdStructure::Flags(_) => 0x01,
        AdStructure::CompleteServiceUuids128(_) => 0x07,
        AdStructure::CompleteLocalName(_) => 0x09,
        AdStructure::ManufacturerSpecificData { .. } => 0xff,
    }
}

/// The data bytes of one advertising structure.
fn ad_data(ad: &AdStructure) -> (p: Vec<u8>)
    requires
        ad.wf(),
    ensures
        p@ == spec_ad_data(*ad),
{
    match ad {
        AdStructure::Flags(f) => {
            let mut p: Vec<u8> = Vec::new();
            p.push(*f);
            proof {
                assert(p@ =~= spec_ad_data(*ad));
            }
            p
        },
        AdStructure::CompleteServiceUuids128(us) => {
            let mut p: Vec<u8> = Vec::new();
            let mut i: usize = 0;
            while i < us.len()
                invariant
                    i <= us@.len(),
                    forall|k: int| 0 <= k < us@.len() ==> #[trigger] us@[k]@.len() == 16,
                    p@ == spec_uuids_bytes(us@.take(i as int)),
                decreases us@.len() - i,
            {
                let u = &us[i];
                let mut j: usize = 0;
                while j < u.len()
                    invariant
                        j <= u@.len(),
                        u@ == us@[i as int]@,
                        i < us@.len(),
                        p@ == spec_uuids_bytes(us@.take(i as int)) + u@.take(j as int),
                    decreases u@.len() - j,
                {
                    p.push(u[j]);
                    j = j + 1;
                }
                proof {
                    assert(u@.take(u@.len() as int) =~= u@);
                    assert(us@.take(i + 1) =~= us@.take(i as int).push(us@[i as int]));
                    lemma_uuids_bytes_push(us@.take(i as int), us@[i as int]);
                }
                i = i + 1;
            }
            proof {
                assert(us@.take(us@.len() as int) =~= us@);
            }
            p
        },
        AdStructure::CompleteLocalName(name) => {
            let p = copy_bytes(name);
            p
        },
        AdStructure::ManufacturerSpecificData { company_identifier, payload } => {
            let mut p: Vec<u8> = Vec::new();
            p.push((*company_identifier % 256) as u8);
            p.push((*company_identifier / 256) as u8);
            let mut j: usize = 0;
            while j < payload.len()
                invariant
                    j <= payload@.len(),
                    p@ == seq![
                        (*company_identifier % 256) as u8,
                        (*company_identifier / 256) as u8,
                    ] + payload@.take(j as int),
                decreases payload@.len() - j,
            {
                p.push(payload[j]);
                j = j + 1;
            }
            proof {
                assert(payload@.take(payload@.len() as int) =~= payload@);
            }
            p
        },
    }
}

/// Encode a list of advertising structures into one payload of at most
/// [`ADV_PAYLOAD_MAX`] bytes. Succeeds exactly when the encoded structures
/// fit; an overlong payload is an error, never a silent truncation.
pub fn encode_ad_structures(ads: &Vec<AdStructure>) -> (r: Result<Vec<u8>, AdvError>)
    requires
        forall|k: int| 0 <= k < ads@.len() ==> (#[trigger] ads@[k]).wf(),
    ensures
        r is Ok <==> spec_encode_ads(ads@).len() <= ADV_PAYLOAD_MAX,
        r matches Ok(v) ==> v@ == spec_encode_ads(ads@) && v@.len() <= ADV_PAYLOAD_MAX,
{
    let mut out: Vec<u8> = Vec::new();
    let mut i: usize = 0;
    while i < ads.len()
        invariant
            i <= ads@.len(),
            forall|k: int| 0 <= k < ads@.len() ==> (#[trigger] ads@[k]).wf(),
            out@ == spec_encode_ads(ads@.take(i as int)),
            out@.len() <= ADV_PAYLOAD_MAX,
        decreases ads@.len() - i,
    {
        let data = ad_data(&ads[i]);
        if data.len() > 29 || out.len() + 2 + data.len() > ADV_PAYLOAD_MAX {
            proof {
                lemma_encode_ads_split(ads@, i as int);
                assert(ads@.skip(i as int)[0] == ads@[i as int]);
                assert(spec_encode_ads(ads@.skip(i as int)) == spec_ad_encoding(ads@[i as int])
                    + spec_encode_ads(ads@.skip(i as int).drop_first()));
                assert(spec_encode_ads(ads@).len() >= out@.len() + 2 + data@.len());
            }
            return Err(AdvError::DoesNotFit);
        }
        out.push((data.len() + 1) as u8);
        out.push(ad_type(&ads[i]));
        let mut j: usize = 0;
        while j < data.len()
            invariant
                j <= data@.len(),
                i < ads@.len(),
                data@ == spec_ad_data(ads@[i as int]),
                data@.len() <= 29,
                out@ == spec_encode_ads(ads@.take(i as int)) + seq![
                    (data@.len() + 1) as u8,
                    spec_ad_type(ads@[i as int]),
                ] + data@.take(j as int),
            decreases data@.len() - j,
        {
            out.push(data[j]);
            j = j + 1;
        }
        proof {
            assert(data@.take(data@.len() as int) =~= data@);
            assert(out@ =~= spec_encode_ads(ads@.take(i as int)) + spec_ad_encoding(
                ads@[i as int],
            ));
            assert(ads@.take(i + 1) =~= ads@.take(i as int).push(ads@[i as int]));
            lemma_encode_ads_push(ads@.take(i as int), ads@[i as int]);
        }
        i = i + 1;
    }
    proof {
        assert(ads@.take(ads@.len() as int) =~= ads@);
    }
    Ok(out)
}

/// The 128-bit UUID of the peripheral's one custom service, in the
/// little-endian order used on the air.
pub open spec fn spec_service_uuid() -> Seq<u8> {
    seq![
        0x00u8,
        0x00u8,
        0x7au8,
        0xe7u8,
        0x0bu8,
        0xebu8,
        0x2fu8,
        0xa6u8,
        0x15u8,
        0x4au8,
        0x0fu8,
        0xaau8,
        0x48u8,
        0x44u8,
        0x2bu8,
        0xfdu8,
    ]
}

/// The service UUID as bytes.
pub fn service_uuid() -> (r: Vec<u8>)
    ensures
        r@ == spec_service_uuid(),
{
    let mut r: Vec<u8> = Vec::new();
    r.push(0x00);
    r.push(0x00);
    r.push(0x7a);
    r.push(0xe7);
    r.push(0x0b);
    r.push(0xeb);
    r.push(0x2f);
    r.push(0xa6);
    r.push(0x15);
    r.push(0x4a);
    r.push(0x0f);
    r.push(0xaa);
    r.push(0x48);
    r.push(0x44);
    r.push(0x2b);
    r.push(0xfd);
    proof {
        assert(r@ =~= spec_service_uuid());
    }
    r
}

/// The bytes of the advertising payload: the flags entry followed by the
/// complete 128-bit service UUID list.
pub open spec fn spec_advertising_payload() -> Seq<u8> {
    seq![2u8, 0x01u8, ADV_FLAGS, 17u8, 0x07u8] + spec_service_uuid()
}

/// Build the advertising payload: discoverability flags and the service
/// UUID. The content is fixed and always fits the payload limit.
pub fn build_advertising_payload() -> (r: Vec<u8>)
    ensures
        r@ == spec_advertising_payload(),
        r@.len() == 21,
{
    let uuid = service_uuid();
    let mut uuids: Vec<Vec<u8>> = Vec::new();
    uuids.push(uuid);
    let mut ads: Vec<AdStructure> = Vec::new();
    ads.push(AdStructure::Flags(ADV_FLAGS));
    ads.push(AdStructure::CompleteServiceUuids128(uuids));
    proof {
        assert(spec_service_uuid().len() == 16);
        let us = ads@[1]->CompleteServiceUuids128_0;
        assert(us@.len() == 1 && us@[0]@ == spec_service_uuid());
        assert(ads@[1].wf());
        assert(forall|k: int| 0 <= k < ads@.len() ==> (#[trigger] ads@[k]).wf());
        assert(us@.drop_first() =~= Seq::<Vec<u8>>::empty());
        assert(spec_uuids_bytes(us@.drop_first()) =~= Seq::<u8>::empty());
        assert(spec_ad_data(ads@[1]) =~= spec_service_uuid());
        assert(spec_ad_data(ads@[0]) =~= seq![ADV_FLAGS]);
        assert(ads@.drop_first().drop_first() =~= Seq::<AdStructure>::empty());
        assert(spec_encode_ads(ads@.drop_first().drop_first()) =~= Seq::<u8>::empty());
        assert(ads@.drop_first()[0] == ads@[1]);
        assert(spec_encode_ads(ads@) == spec_ad_encoding(ads@[0]) + spec_encode_ads(
            ads@.drop_first(),
        ));
        assert(spec_encode_ads(ads@.drop_first()) == spec_ad_encoding(ads@[1]) + spec_encode_ads(
            ads@.drop_first().drop_first(),
        ));
        assert(spec_encode_ads(ads@) =~= spec_advertising_payload());
        assert(spec_advertising_payload().len() == 21);
    }
    let r = encode_ad_structures(&ads);
    match r {
        Ok(v) => v,
        Err(_) => {
            proof {
                assert(false);
            }
            Vec::new()
        },
    }
}

/// The bytes of the scan-response payload for a device name and a
/// vendor-specific payload: the complete local name entry followed by the
/// manufacturer-specific entry under [`COMPANY_IDENTIFIER`].
pub open spec fn spec_scan_response(name: Seq<u8>, vendor: Seq<u8>) -> Seq<u8> {
    seq![(name.len() + 1) as u8, 0x09u8] + name + seq![
        (vendor.len() + 3) as u8,
        0xffu8,
        (COMPANY_IDENTIFIER % 256) as u8,
        (COMPANY_IDENTIFIER / 256) as u8,
    ] + vendor
}

/// Build the scan-response payload carrying the advertised device name and a
/// vendor-specific payload (possibly empty). Succeeds exactly when both fit
/// the payload limit; an overlong name is reported, never truncated.
pub fn build_scan_response(name: &Vec<u8>, vendor: &Vec<u8>) -> (r: Result<Vec<u8>, AdvError>)
    ensures
        r is Ok <==> name@.len() + vendor@.len() + 6 <= ADV_PAYLOAD_MAX,
        r matches Ok(v) ==> v@ == spec_scan_response(name@, vendor@) && v@.len() <= ADV_PAYLOAD_MAX,
{
    let mut ads: Vec<AdStructure> = Vec::new();
    ads.push(AdStructure::CompleteLocalName(copy_bytes(name)));
    ads.push(
        AdStructure::ManufacturerSpecificData {
            company_identifier: COMPANY_IDENTIFIER,
            payload: copy_bytes(vendor),
        },
    );
    proof {
        assert(forall|k: int| 0 <= k < ads@.len() ==> (#[trigger] ads@[k]).wf());
        assert(spec_ad_data(ads@[0]) =~= name@);
        assert(spec_ad_data(ads@[1]) =~= seq![
            (COMPANY_IDENTIFIER % 256) as u8,
            (COMPANY_IDENTIFIER / 256) as u8,
        ] + vendor@);
        assert(ads@.drop_first().drop_first() =~= Seq::<AdStructure>::empty());
        assert(spec_encode_ads(ads@.drop_first().drop_first()) =~= Seq::<u8>::empty());
        assert(ads@.drop_first()[0] == ads@[1]);
        assert(spec_encode_ads(ads@) == spec_ad_encoding(ads@[0]) + spec_encode_ads(
            ads@.drop_first(),
        ));
        assert(spec_encode_ads(ads@.drop_first()) == spec_ad_encoding(ads@[1]) + spec_encode_ads(
            ads@.drop_first().drop_first(),
        ));
        assert(spec_encode_ads(ads@) =~= spec_scan_response(name@, vendor@));
        assert(spec_encode_ads(ads@).len() == name@.len() + vendor@.len() + 6);
    }
    encode_ad_structures(&ads)
}

} // verus!
