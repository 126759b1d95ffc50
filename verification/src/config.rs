//! The configuration store: named provider instances, one per name, and
//! a single default selection. The first name ever added becomes the
//! default; later additions replace by name and leave the default alone
//! unless asked.

use vstd::prelude::*;
use crate::codec::{
    decode, decode_record, encode, encode_record, lemma_codec_round_trip, DecodeError,
    ProviderRecord, RecordModel,
};
use crate::provider::{Provider, ProviderModel};

verus! {

/// The mathematical model of the store: the default selection and the
/// providers as a map from name to provider model.
#[verifier::ext_equal]
pub struct ConfigModel {
    pub default: Option<Seq<char>>,
    pub providers: Map<Seq<char>, ProviderModel>,
}

/// The model of a store with nothing configured.
pub open spec fn empty_model() -> ConfigModel {
    ConfigModel { default: None, providers: Map::empty() }
}

/// The map an entry sequence holds; a later entry for a name wins.
pub open spec fn map_of(entries: Seq<(String, Provider)>) -> Map<Seq<char>, ProviderModel>
    decreases entries.len(),
{
    if entries.len() == 0 {
        Map::empty()
    } else {
        map_of(entries.drop_last()).insert(entries.last().0@, entries.last().1@)
    }
}

/// What `add` does to the model: the provider is stored under the name,
/// and on a store that held nothing the name becomes the default.
pub open spec fn add_model(c: ConfigModel, name: Seq<char>, p: ProviderModel) -> ConfigModel {
    ConfigModel {
        default: if c.providers.dom().is_empty() {
            Some(name)
        } else {
            c.default
        },
        providers: c.providers.insert(name, p),
    }
}

/// What `get_default` returns on a model: the provider stored under the
/// default name, or nothing when no default is set or the name is gone.
pub open spec fn get_default_model(c: ConfigModel) -> Option<ProviderModel> {
    match c.default {
        Some(d) => if c.providers.dom().contains(d) {
            Some(c.providers[d])
        } else {
            None
        },
        None => None,
    }
}

/// What `set_default` does to a model, and whether it succeeds: only a
/// name already present can become the default; otherwise nothing moves.
pub open spec fn set_default_model(c: ConfigModel, name: Seq<char>) -> (ConfigModel, bool) {
    if c.providers.dom().contains(name) {
        (ConfigModel { default: Some(name), providers: c.providers }, true)
    } else {
        (c, false)
    }
}

/// Stores configured weather providers under their names, plus the
/// default selection.
pub struct Config {
    default: Option<String>,
    providers: Vec<(String, Provider)>,
}

impl View for Config {
    type V = ConfigModel;

    closed spec fn view(&self) -> ConfigModel {
        ConfigModel {
            default: match self.default {
                Some(d) => Some(d@),
                None => None,
            },
            providers: map_of(self.providers@),
        }
    }
}

impl Default for Config {
    /// A store with nothing configured.
    fn default() -> (r: Config)
        ensures
            r.wf(),
            r@ == empty_model(),
    {
        Config::new()
    }
}

impl Config {
    /// Each name is stored at most once.
    pub closed spec fn wf(&self) -> bool {
        forall|i: int, j: int|
            0 <= i < j < self.providers@.len() ==> self.providers@[i].0@ != self.providers@[j].0@
    }

    /// Builds a store with nothing configured.
    pub fn new() -> (r: Config)
        ensures
            r.wf(),
            r@ == empty_model(),
    {
        let r = Config { default: None, providers: Vec::new() };
        proof {
            assert(r@ =~= empty_model());
        }
        r
    }

    /// Adds a provider under a name, replacing what the name held; the
    /// first name added to an empty store becomes the default.
    pub fn add(&mut self, name: String, provider: Provider)
        requires
            old(self).wf(),
        ensures
            final(self).wf(),
            final(self)@ == add_model(old(self)@, name@, provider@),
    {
        let ghost entries0 = self.providers@;
        if self.providers.len() == 0 {
            self.default = Some(name.clone());
        }
        let idx = self.find_index(&name);
        match idx {
            Some(i) => {
                proof {
                    lemma_map_of_update(entries0, i as int, (name, provider));
                }
                self.providers[i] = (name, provider);
            },
            None => {
                self.providers.push((name, provider));
                proof {
                    assert(self.providers@.drop_last() =~= entries0);
                }
            },
        }
        proof {
            if entries0.len() == 0 {
                assert(map_of(entries0).dom() =~= Set::empty());
            } else {
                assert(map_of(entries0).dom().contains(entries0.last().0@));
            }
            assert(self@ =~= add_model(old(self)@, name@, provider@));
        }
    }

    /// Returns the default provider, or nothing if no default is set or
    /// no provider is stored under the default name.
    pub fn get_default(&self) -> (r: Option<&Provider>)
        requires
            self.wf(),
        ensures
            r is Some <==> get_default_model(self@) is Some,
            r matches Some(p) ==> get_default_model(self@) == Some(p@),
    {
        let d = match &self.default {
            None => {
                return None;
            },
            Some(d) => d,
        };
        let idx = self.find_index(d);
        match idx {
            Some(i) => {
                proof {
                    lemma_map_of_index(self.providers@, i as int);
                }
                Some(&self.providers[i].1)
            },
            None => {
                proof {
                    lemma_map_of_contains(self.providers@, d@);
                }
                None
            },
        }
    }

    /// Makes a name the default; succeeds exactly when a provider is
    /// stored under it, and moves nothing otherwise.
    pub fn set_default(&mut self, name: String) -> (r: bool)
        requires
            old(self).wf(),
        ensures
            final(self).wf(),
            final(self)@ == set_default_model(old(self)@, name@).0,
            r == set_default_model(old(self)@, name@).1,
            r == old(self)@.providers.dom().contains(name@),
    {
        let idx = self.find_index(&name);
        proof {
            lemma_map_of_contains(self.providers@, name@);
        }
        match idx {
            Some(_) => {
                self.default = Some(name);
                proof {
                    assert(self@ =~= set_default_model(old(self)@, name@).0);
                }
                true
            },
            None => {
                proof {
                    assert(self@ =~= set_default_model(old(self)@, name@).0);
                }
                false
            },
        }
    }

    /// The default name as a plain value.
    pub fn default_name(&self) -> (r: Option<&String>)
        ensures
            r is Some <==> self@.default is Some,
            r matches Some(d) ==> self@.default == Some(d@),
    {
        match &self.default {
            Some(d) => Some(d),
            None => None,
        }
    }

    /// How many providers are stored.
    pub fn provider_count(&self) -> (r: usize)
        requires
            self.wf(),
        ensures
            self@.providers.dom().finite(),
            r == self@.providers.dom().len(),
    {
        proof {
            lemma_map_of_len(self.providers@);
        }
        self.providers.len()
    }

    /// The index of the entry stored under a name, if any.
    fn find_index(&self, name: &String) -> (r: Option<usize>)
        ensures
            r matches Some(i) ==> i < self.providers@.len() && self.providers@[i as int].0@
                == name@,
            r is None ==> forall|j: int|
                0 <= j < self.providers@.len() ==> self.providers@[j].0@ != name@,
    {
        let mut i: usize = 0;
        while i < self.providers.len()
            invariant
                0 <= i <= self.providers@.len(),
                forall|j: int| 0 <= j < i ==> self.providers@[j].0@ != name@,
            decreases self.providers@.len() - i,
        {
            if crate::text::string_is(&self.providers[i].0, name.as_str()) {
                return Some(i);
            }
            i = i + 1;
        }
        None
    }
}

/// A name is in the held map exactly when some entry stores it.
proof fn lemma_map_of_contains(entries: Seq<(String, Provider)>, k: Seq<char>)
    ensures
        map_of(entries).dom().contains(k) <==> exists|i: int|
            0 <= i < entries.len() && entries[i].0@ == k,
    decreases entries.len(),
{
    if entries.len() > 0 {
        let prefix = entries.drop_last();
        lemma_map_of_contains(prefix, k);
        if entries.last().0@ == k {
            assert(entries[entries.len() - 1].0@ == k);
        } else if map_of(entries).dom().contains(k) {
            let i = choose|i: int| 0 <= i < prefix.len() && prefix[i].0@ == k;
            assert(entries[i].0@ == k);
        } else {
            assert(forall|i: int|
                0 <= i < entries.len() && entries[i].0@ == k ==> 0 <= i < prefix.len()
                    && prefix[i].0@ == k);
        }
    }
}

/// With each name stored once, the held map sends an entry's name to
/// that entry's provider.
proof fn lemma_map_of_index(entries: Seq<(String, Provider)>, i: int)
    requires
        0 <= i < entries.len(),
        forall|a: int, b: int| 0 <= a < b < entries.len() ==> entries[a].0@ != entries[b].0@,
    ensures
        map_of(entries).dom().contains(entries[i].0@),
        map_of(entries)[entries[i].0@] == entries[i].1@,
    decreases entries.len(),
{
    let prefix = entries.drop_last();
    if i == entries.len() - 1 {
    } else {
        assert(forall|a: int, b: int|
            0 <= a < b < prefix.len() ==> prefix[a].0@ != prefix[b].0@);
        lemma_map_of_index(prefix, i);
        assert(entries[i].0@ != entries.last().0@);
    }
}

/// Replacing the entry that stores a name updates the held map at that
/// name alone.
proof fn lemma_map_of_update(entries: Seq<(String, Provider)>, i: int, e: (String, Provider))
    requires
        0 <= i < entries.len(),
        entries[i].0@ == e.0@,
        forall|a: int, b: int| 0 <= a < b < entries.len() ==> entries[a].0@ != entries[b].0@,
    ensures
        map_of(entries.update(i, e)) =~= map_of(entries).insert(e.0@, e.1@),
    decreases entries.len(),
{
    let updated = entries.update(i, e);
    let prefix = entries.drop_last();
    if i == entries.len() - 1 {
        assert(updated.drop_last() =~= prefix);
        assert(updated.last() == e);
        assert(map_of(updated) =~= map_of(entries).insert(e.0@, e.1@));
    } else {
        assert(forall|a: int, b: int|
            0 <= a < b < prefix.len() ==> prefix[a].0@ != prefix[b].0@);
        lemma_map_of_update(prefix, i, e);
        assert(updated.drop_last() =~= prefix.update(i, e));
        assert(updated.last() == entries.last());
        assert(entries[i].0@ != entries.last().0@);
        assert(map_of(updated) =~= map_of(entries).insert(e.0@, e.1@));
    }
}

/// With each name stored once, the held map has one element per entry.
proof fn lemma_map_of_len(entries: Seq<(String, Provider)>)
    requires
        forall|a: int, b: int| 0 <= a < b < entries.len() ==> entries[a].0@ != entries[b].0@,
    ensures
        map_of(entries).dom().finite(),
        map_of(entries).dom().len() == entries.len(),
    decreases entries.len(),
{
    if entries.len() == 0 {
        assert(map_of(entries).dom() =~= Set::empty());
    } else {
        let prefix = entries.drop_last();
        assert(forall|a: int, b: int|
            0 <= a < b < prefix.len() ==> prefix[a].0@ != prefix[b].0@);
        lemma_map_of_len(prefix);
        lemma_map_of_contains(prefix, entries.last().0@);
        assert(forall|a: int| 0 <= a < prefix.len() ==> entries[a] == prefix[a]);
        assert(!map_of(prefix).dom().contains(entries.last().0@));
        assert(map_of(entries).dom() =~= map_of(prefix).dom().insert(entries.last().0@));
    }
}

/// The first provider added to an empty store becomes the default, and
/// the default query then returns exactly that provider.
pub proof fn lemma_first_add_is_default(c: ConfigModel, name: Seq<char>, p: ProviderModel)
    requires
        c.providers.dom().is_empty(),
    ensures
        add_model(c, name, p).default == Some(name),
        get_default_model(add_model(c, name, p)) == Some(p),
{
}

/// Adding to a store that already holds a provider leaves the default
/// selection alone.
pub proof fn lemma_later_add_keeps_default(c: ConfigModel, name: Seq<char>, p: ProviderModel)
    requires
        !c.providers.dom().is_empty(),
    ensures
        add_model(c, name, p).default == c.default,
{
}

/// Two additions under different names: the first name added to an
/// empty store stays the default, and the default query still returns
/// the first provider.
pub proof fn lemma_two_adds_keep_first_default(
    c: ConfigModel,
    n1: Seq<char>,
    p1: ProviderModel,
    n2: Seq<char>,
    p2: ProviderModel,
)
    requires
        c.providers.dom().is_empty(),
        n1 != n2,
    ensures
        add_model(add_model(c, n1, p1), n2, p2).default == Some(n1),
        get_default_model(add_model(add_model(c, n1, p1), n2, p2)) == Some(p1),
{
    let c1 = add_model(c, n1, p1);
    assert(c1.providers.dom().contains(n1));
    assert(!c1.providers.dom().is_empty());
}

/// Setting an absent name as default fails and moves nothing.
pub proof fn lemma_set_default_missing(c: ConfigModel, name: Seq<char>)
    requires
        !c.providers.dom().contains(name),
    ensures
        set_default_model(c, name).0 == c,
        !set_default_model(c, name).1,
{
}

/// Setting a present name as default succeeds, and the default query
/// then returns the provider stored under that name.
pub proof fn lemma_set_default_present(c: ConfigModel, name: Seq<char>)
    requires
        c.providers.dom().contains(name),
    ensures
        set_default_model(c, name).1,
        set_default_model(c, name).0.providers == c.providers,
        get_default_model(set_default_model(c, name).0) == Some(c.providers[name]),
{
}

/// A store with nothing configured has no default provider.
pub proof fn lemma_empty_has_no_default()
    ensures
        get_default_model(empty_model()) is None,
{
}

/// The persisted shape of a whole store: the default name and every
/// provider as a tagged record under its name, in one self-describing
/// document.
pub struct ConfigDocument {
    pub default: Option<String>,
    pub providers: Vec<(String, ProviderRecord)>,
}

/// The mathematical model of a persisted document.
#[verifier::ext_equal]
pub struct DocumentModel {
    pub default: Option<Seq<char>>,
    pub providers: Seq<(Seq<char>, RecordModel)>,
}

impl View for ConfigDocument {
    type V = DocumentModel;

    open spec fn view(&self) -> DocumentModel {
        DocumentModel {
            default: match self.default {
                Some(d) => Some(d@),
                None => None,
            },
            providers: self.providers@.map_values(
                |e: (String, ProviderRecord)| (e.0@, e.1@),
            ),
        }
    }
}

/// What a document's provider entries decode to: each record decodes
/// under the codec, a repeated name or an undecodable record fails the
/// whole document.
pub open spec fn decode_entries(entries: Seq<(Seq<char>, RecordModel)>) -> Result<
    Map<Seq<char>, ProviderModel>,
    DecodeError,
>
    decreases entries.len(),
{
    if entries.len() == 0 {
        Ok(Map::empty())
    } else {
        match decode_entries(entries.drop_last()) {
            Err(e) => Err(e),
            Ok(m) => if m.dom().contains(entries.last().0) {
                Err(DecodeError::MalformedData)
            } else {
                match decode_record(entries.last().1) {
                    Err(e) => Err(e),
                    Ok(p) => Ok(m.insert(entries.last().0, p)),
                }
            },
        }
    }
}

/// What a whole document decodes to: the store model with the same
/// default selection and the decoded providers.
pub open spec fn decode_document(d: DocumentModel) -> Result<ConfigModel, DecodeError> {
    match decode_entries(d.providers) {
        Err(e) => Err(e),
        Ok(m) => Ok(ConfigModel { default: d.default, providers: m }),
    }
}

/// Encodes a whole store into its persisted document. Decoding the
/// result restores exactly the store's model: the round-trip law of
/// persistence.
pub fn encode_config(c: &Config) -> (d: ConfigDocument)
    requires
        c.wf(),
    ensures
        d@.default == c@.default,
        forall|j: int|
            0 <= j < d@.providers.len() ==> c@.providers.dom().contains(#[trigger] d@.providers[j].0)
                && d@.providers[j].1 == encode_record(c@.providers[d@.providers[j].0]),
        decode_document(d@) == Ok::<ConfigModel, DecodeError>(c@),
{
    let ghost entries = c.providers@;
    let mut records: Vec<(String, ProviderRecord)> = Vec::new();
    let mut i: usize = 0;
    proof {
        assert(records@.map_values(|e: (String, ProviderRecord)| (e.0@, e.1@)) =~= Seq::empty());
        assert(entries.take(0) =~= Seq::<(String, Provider)>::empty());
    }
    while i < c.providers.len()
        invariant
            0 <= i <= entries.len(),
            entries == c.providers@,
            c.wf(),
            records@.len() == i,
            forall|j: int|
                0 <= j < i ==> records@[j].0@ == entries[j].0@ && records@[j].1@ == encode_record(
                    entries[j].1@,
                ),
            decode_entries(records@.map_values(|e: (String, ProviderRecord)| (e.0@, e.1@)))
                == Ok::<Map<Seq<char>, ProviderModel>, DecodeError>(map_of(entries.take(i as int))),
        decreases entries.len() - i,
    {
        let ghost recs0 = records@.map_values(|e: (String, ProviderRecord)| (e.0@, e.1@));
        let entry = &c.providers[i];
        let record = encode(&entry.1);
        records.push((entry.0.clone(), record));
        proof {
            let recs1 = records@.map_values(|e: (String, ProviderRecord)| (e.0@, e.1@));
            assert(recs1.drop_last() =~= recs0);
            assert(recs1.last() == (entries[i as int].0@, encode_record(entries[i as int].1@)));
            lemma_map_of_contains(entries.take(i as int), entries[i as int].0@);
            assert(forall|j: int|
                0 <= j < i ==> entries.take(i as int)[j] == entries[j]);
            assert(!map_of(entries.take(i as int)).dom().contains(entries[i as int].0@));
            lemma_codec_round_trip(entries[i as int].1@);
            assert(entries.take(i as int + 1).drop_last() =~= entries.take(i as int));
            assert(entries.take(i as int + 1).last() == entries[i as int]);
            assert(map_of(entries.take(i as int + 1)) == map_of(entries.take(i as int)).insert(
                entries[i as int].0@,
                entries[i as int].1@,
            ));
            assert(decode_entries(recs1) == Ok::<Map<Seq<char>, ProviderModel>, DecodeError>(
                map_of(entries.take(i as int + 1)),
            ));
        }
        i = i + 1;
    }
    let default = match &c.default {
        Some(d) => Some(d.clone()),
        None => None,
    };
    let d = ConfigDocument { default, providers: records };
    proof {
        assert(entries.take(entries.len() as int) =~= entries);
        assert(d@.providers == records@.map_values(|e: (String, ProviderRecord)| (e.0@, e.1@)));
        assert(decode_document(d@) matches Ok(m) && m =~= c@);
        assert forall|j: int| 0 <= j < d@.providers.len() implies c@.providers.dom().contains(
            #[trigger] d@.providers[j].0,
        ) && d@.providers[j].1 == encode_record(c@.providers[d@.providers[j].0]) by {
            lemma_map_of_index(entries, j);
        }
    }
    d
}

/// Decodes a persisted document back into a store: the same default
/// selection and a live provider of the original kind under each name.
pub fn decode_config(d: &ConfigDocument) -> (r: Result<Config, DecodeError>)
    ensures
        r is Ok <==> decode_document(d@) is Ok,
        r matches Ok(c) ==> c.wf() && decode_document(d@) == Ok::<ConfigModel, DecodeError>(c@),
        r matches Err(e) ==> decode_document(d@) == Err::<ConfigModel, DecodeError>(e),
{
    let ghost doc_entries = d@.providers;
    let mut providers: Vec<(String, Provider)> = Vec::new();
    let mut i: usize = 0;
    proof {
        assert(doc_entries.take(0) =~= Seq::<(Seq<char>, RecordModel)>::empty());
        assert(map_of(providers@) =~= Map::<Seq<char>, ProviderModel>::empty());
    }
    while i < d.providers.len()
        invariant
            0 <= i <= doc_entries.len(),
            doc_entries == d@.providers,
            doc_entries.len() == d.providers@.len(),
            providers@.len() == i,
            forall|j: int| 0 <= j < i ==> providers@[j].0@ == doc_entries[j].0,
            forall|a: int, b: int|
                0 <= a < b < providers@.len() ==> providers@[a].0@ != providers@[b].0@,
            decode_entries(doc_entries.take(i as int)) == Ok::<
                Map<Seq<char>, ProviderModel>,
                DecodeError,
            >(map_of(providers@)),
        decreases doc_entries.len() - i,
    {
        let ghost built0 = providers@;
        let entry = &d.providers[i];
        proof {
            assert(doc_entries[i as int] == (entry.0@, entry.1@));
            assert(doc_entries.take(i as int + 1).drop_last() =~= doc_entries.take(i as int));
            assert(doc_entries.take(i as int + 1).last() == doc_entries[i as int]);
        }
        let dup = find_name(&providers, &entry.0);
        if dup {
            proof {
                lemma_map_of_contains(built0, entry.0@);
                assert(decode_entries(doc_entries.take(i as int + 1)) == Err::<
                    Map<Seq<char>, ProviderModel>,
                    DecodeError,
                >(DecodeError::MalformedData));
                lemma_decode_entries_err(doc_entries, i as int + 1);
            }
            return Err(DecodeError::MalformedData);
        }
        proof {
            lemma_map_of_contains(built0, entry.0@);
        }
        match decode(&entry.1) {
            Ok(p) => {
                providers.push((entry.0.clone(), p));
                proof {
                    assert(providers@.drop_last() =~= built0);
                    assert(map_of(providers@) == map_of(built0).insert(entry.0@, p@));
                    assert(decode_entries(doc_entries.take(i as int + 1)) == Ok::<
                        Map<Seq<char>, ProviderModel>,
                        DecodeError,
                    >(map_of(providers@)));
                }
            },
            Err(e) => {
                proof {
                    assert(decode_entries(doc_entries.take(i as int + 1)) == Err::<
                        Map<Seq<char>, ProviderModel>,
                        DecodeError,
                    >(e));
                    lemma_decode_entries_err(doc_entries, i as int + 1);
                }
                return Err(e);
            },
        }
        i = i + 1;
    }
    let default = match &d.default {
        Some(s) => Some(s.clone()),
        None => None,
    };
    let c = Config { default, providers };
    proof {
        assert(doc_entries.take(doc_entries.len() as int) =~= doc_entries);
        assert(decode_document(d@) matches Ok(m) && m =~= c@);
    }
    Ok(c)
}

/// Loads a store from an optional persisted document: an absent source
/// and an undecodable document both yield the empty store, never an
/// error; a decodable document yields exactly the store it encodes.
pub fn load_config(doc: Option<&ConfigDocument>) -> (c: Config)
    ensures
        c.wf(),
        doc is None ==> c@ == empty_model(),
        doc matches Some(d) ==> c@ == (match decode_document(d@) {
            Ok(m) => m,
            Err(_) => empty_model(),
        }),
{
    match doc {
        None => Config::new(),
        Some(d) => match decode_config(d) {
            Ok(c) => c,
            Err(_) => Config::new(),
        },
    }
}

/// Whether some stored entry already uses a name.
fn find_name(providers: &Vec<(String, Provider)>, name: &String) -> (r: bool)
    ensures
        r == exists|j: int| 0 <= j < providers@.len() && providers@[j].0@ == name@,
{
    let mut i: usize = 0;
    while i < providers.len()
        invariant
            0 <= i <= providers@.len(),
            forall|j: int| 0 <= j < i ==> providers@[j].0@ != name@,
        decreases providers@.len() - i,
    {
        if crate::text::string_is(&providers[i].0, name.as_str()) {
            return true;
        }
        i = i + 1;
    }
    false
}

/// A document error anywhere among the first entries fails the whole
/// entry sequence with that error.
proof fn lemma_decode_entries_err(entries: Seq<(Seq<char>, RecordModel)>, k: int)
    requires
        0 <= k <= entries.len(),
        decode_entries(entries.take(k)) is Err,
    ensures
        decode_entries(entries) == decode_entries(entries.take(k)),
    decreases entries.len() - k,
{
    if k == entries.len() {
        assert(entries.take(k) =~= entries);
    } else {
        assert(entries.take(k + 1).drop_last() =~= entries.take(k));
        lemma_decode_entries_err(entries, k + 1);
    }
}

} // verus!
