//! The tagged persistence codec: any provider encodes to a
//! self-describing record whose tag is the provider's short name, and a
//! record decodes back to a live instance of the original concrete kind,
//! chosen from the tag alone. The set of decodable kinds is fixed at
//! build time.

use vstd::prelude::*;
use crate::provider::{
    provider_tag, DummyProvider, Provider, ProviderModel, VisualCrossingProvider,
};
use crate::text::string_is;

verus! {

/// A self-describing serialized provider: the type tag and the
/// instance's own fields as name-value pairs of text.
pub struct ProviderRecord {
    pub tag: String,
    pub fields: Vec<(String, String)>,
}

/// The mathematical model of a record.
#[verifier::ext_equal]
pub struct RecordModel {
    pub tag: Seq<char>,
    pub fields: Seq<(Seq<char>, Seq<char>)>,
}

impl View for ProviderRecord {
    type V = RecordModel;

    open spec fn view(&self) -> RecordModel {
        RecordModel {
            tag: self.tag@,
            fields: self.fields@.map_values(|f: (String, String)| (f.0@, f.1@)),
        }
    }
}

/// Why a record failed to decode.
#[derive(Clone, Copy, PartialEq, Eq, Structural, Debug)]
pub enum DecodeError {
    /// The tag names no kind of the codec's build-time registration.
    UnknownTag,
    /// The tag is known but the fields do not have that kind's shape.
    MalformedData,
}

/// The first value stored under a field name, if any.
pub open spec fn field_lookup(fields: Seq<(Seq<char>, Seq<char>)>, name: Seq<char>) -> Option<
    Seq<char>,
>
    decreases fields.len(),
{
    if fields.len() == 0 {
        None
    } else if fields[0].0 == name {
        Some(fields[0].1)
    } else {
        field_lookup(fields.drop_first(), name)
    }
}

/// The record a provider encodes to: its tag is the provider's short
/// name, its fields are the instance's own data.
pub open spec fn encode_record(m: ProviderModel) -> RecordModel {
    match m {
        ProviderModel::Dummy => RecordModel { tag: "dummy"@, fields: Seq::empty() },
        ProviderModel::VisualCrossing { base_url, key } => RecordModel {
            tag: "vc"@,
            fields: seq![("base_url"@, base_url), ("key"@, key)],
        },
    }
}

/// What a record decodes to: the concrete kind named by the tag, built
/// from the fields; an unregistered tag or fields of the wrong shape
/// fail.
pub open spec fn decode_record(r: RecordModel) -> Result<ProviderModel, DecodeError> {
    if r.tag == "dummy"@ {
        Ok(ProviderModel::Dummy)
    } else if r.tag == "vc"@ {
        match (field_lookup(r.fields, "base_url"@), field_lookup(r.fields, "key"@)) {
            (Some(base_url), Some(key)) => Ok(ProviderModel::VisualCrossing { base_url, key }),
            _ => Err(DecodeError::MalformedData),
        }
    } else {
        Err(DecodeError::UnknownTag)
    }
}

/// Encodes a provider into its self-describing record.
pub fn encode(p: &Provider) -> (r: ProviderRecord)
    ensures
        r@ == encode_record(p@),
{
    match p {
        Provider::Dummy(_) => {
            let r = ProviderRecord { tag: String::from_str(DummyProvider::name()), fields: Vec::new() };
            proof {
                assert(r@ =~= encode_record(p@));
            }
            r
        },
        Provider::VisualCrossing(v) => {
            let mut fields: Vec<(String, String)> = Vec::new();
            fields.push((String::from_str("base_url"), v.base_url().clone()));
            fields.push((String::from_str("key"), v.key().clone()));
            let r = ProviderRecord { tag: String::from_str(VisualCrossingProvider::name()), fields };
            proof {
                assert(r@.fields =~= encode_record(p@).fields);
                assert(r@ =~= encode_record(p@));
            }
            r
        },
    }
}

/// Decodes a record into a live provider of the kind its tag names.
pub fn decode(r: &ProviderRecord) -> (res: Result<Provider, DecodeError>)
    ensures
        res is Ok <==> decode_record(r@) is Ok,
        res matches Ok(p) ==> decode_record(r@) == Ok::<ProviderModel, DecodeError>(p@),
        res matches Err(e) ==> decode_record(r@) == Err::<ProviderModel, DecodeError>(e),
{
    if string_is(&r.tag, "dummy") {
        Ok(Provider::Dummy(DummyProvider::new()))
    } else if string_is(&r.tag, "vc") {
        let base_url = lookup_field(&r.fields, "base_url");
        let key = lookup_field(&r.fields, "key");
        match (base_url, key) {
            (Some(base_url), Some(key)) => Ok(
                Provider::VisualCrossing(VisualCrossingProvider::with_base_url(base_url, key)),
            ),
            _ => Err(DecodeError::MalformedData),
        }
    } else {
        Err(DecodeError::UnknownTag)
    }
}

/// The round-trip law of the codec: decoding what a provider encodes to
/// restores exactly that provider's model — the same kind and the same
/// field values, so the restored instance plans the same requests and
/// returns the same reports as the original.
pub proof fn lemma_codec_round_trip(m: ProviderModel)
    ensures
        decode_record(encode_record(m)) == Ok::<ProviderModel, DecodeError>(m),
{
    reveal_strlit("dummy");
    reveal_strlit("vc");
    reveal_strlit("base_url");
    reveal_strlit("key");
    match m {
        ProviderModel::Dummy => {
        },
        ProviderModel::VisualCrossing { base_url, key } => {
            let fields = encode_record(m).fields;
            let tail = fields.drop_first();
            assert(tail =~= seq![("key"@, key)]);
            assert(fields[0].0 == "base_url"@);
            assert(field_lookup(fields, "base_url"@) == Some(base_url));
            assert(field_lookup(tail, "key"@) == Some(key));
            assert(field_lookup(fields, "key"@) == Some(key));
            assert("vc"@.len() == 2 && "dummy"@.len() == 5);
            assert(encode_record(m).tag != "dummy"@);
            assert(decode_record(encode_record(m)) is Ok);
            assert(decode_record(encode_record(m))->Ok_0 == m);
        },
    }
}

/// A record whose tag is outside the codec's registration decodes to
/// `UnknownTag`, whatever its fields hold.
pub proof fn lemma_unknown_tag(r: RecordModel)
    requires
        r.tag != "dummy"@,
        r.tag != "vc"@,
    ensures
        decode_record(r) == Err::<ProviderModel, DecodeError>(DecodeError::UnknownTag),
{
}

/// Every tag the codec writes is a name the registry knows, and the
/// registry builds an instance of the same kind the tag names.
pub proof fn lemma_tags_are_registered(m: ProviderModel)
    ensures
        crate::registry::resolved_model(provider_tag(m)) is Some,
        provider_tag(m) == encode_record(m).tag,
{
}

/// Looks up the first value stored under a field name.
fn lookup_field(fields: &Vec<(String, String)>, name: &str) -> (r: Option<String>)
    ensures
        r is Some <==> field_lookup(fields@.map_values(|f: (String, String)| (f.0@, f.1@)), name@)
            is Some,
        r matches Some(v) ==> field_lookup(
            fields@.map_values(|f: (String, String)| (f.0@, f.1@)),
            name@,
        ) == Some(v@),
{
    let ghost model = fields@.map_values(|f: (String, String)| (f.0@, f.1@));
    proof {
        assert(model.skip(0) =~= model);
    }
    let mut i: usize = 0;
    while i < fields.len()
        invariant
            0 <= i <= fields@.len(),
            model == fields@.map_values(|f: (String, String)| (f.0@, f.1@)),
            forall|j: int| 0 <= j < i ==> model[j].0 != name@,
            field_lookup(model, name@) == field_lookup(model.skip(i as int), name@),
        decreases fields@.len() - i,
    {
        let entry_name = &fields[i].0;
        if string_is(entry_name, name) {
            proof {
                assert(model.skip(i as int)[0] == model[i as int]);
            }
            return Some(fields[i].1.clone());
        }
        proof {
            assert(model.skip(i as int).drop_first() =~= model.skip(i as int + 1));
            assert(model.skip(i as int)[0] == model[i as int]);
        }
        i = i + 1;
    }
    proof {
        assert(model.skip(i as int) =~= Seq::empty());
    }
    None
}

} // verus!
