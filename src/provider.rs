//! One configured identity provider, and the validation of one entry of
//! the `providers` list.
use vstd::prelude::*;
use crate::error::{ConfigError, ErrorModel};
use crate::name::{decode_spec, encode_spec, NameModel, ProviderName};
use crate::raw::{key_is, RawValue};

verus! {

/// What `url::Url::parse` makes of a text: the serialization of the parsed
/// absolute URL, or `None` where the text is no absolute URL.
pub uninterp spec fn url_parsed(s: Seq<char>) -> Option<Seq<char>>;

/// Relies on `url::Url::parse`, which parses an absolute URL and fails on
/// anything else, and on `String::from(Url)`, which hands back the URL's
/// serialization.
#[verifier::external_body]
fn parse_url(s: &str) -> (r: Option<String>)
    ensures
        match r {
            Some(t) => url_parsed(s@) == Some(t@),
            None => url_parsed(s@) is None,
        },
{
    url::Url::parse(s).ok().map(String::from)
}

/// One configured identity provider. `M` is the discovery document that a
/// discovery client attaches once it has fetched it; it never comes from
/// configuration input and is never written back out.
#[derive(Clone, Debug)]
pub struct OIDCProvider<M> {
    pub client_id: String,
    pub client_secret: String,
    /// The serialization of an absolute URL.
    pub url: String,
    pub name: ProviderName,
    pub metadata: Option<M>,
}

/// The model of a provider: everything but the runtime metadata slot.
pub struct ProviderModel {
    pub client_id: Seq<char>,
    pub client_secret: Seq<char>,
    pub url: Seq<char>,
    pub name: NameModel,
}

impl<M> View for OIDCProvider<M> {
    type V = ProviderModel;

    open spec fn view(&self) -> ProviderModel {
        ProviderModel {
            client_id: self.client_id@,
            client_secret: self.client_secret@,
            url: self.url@,
            name: self.name@,
        }
    }
}

/// The fields of a provider entry that have been read so far.
pub struct EntryFields {
    pub client_id: Option<Seq<char>>,
    pub client_secret: Option<Seq<char>>,
    pub url: Option<Seq<char>>,
    pub name: Option<NameModel>,
}

/// Nothing read yet.
pub open spec fn no_fields() -> EntryFields {
    EntryFields { client_id: None, client_secret: None, url: None, name: None }
}

/// Reads one key of provider entry `entry`, with its value.
pub open spec fn entry_step(acc: EntryFields, key: Seq<char>, v: RawValue, entry: usize) -> Result<
    EntryFields,
    ErrorModel,
> {
    let dup = ErrorModel::DuplicateField { field: key, entry: Some(entry) };
    let wrong = ErrorModel::WrongType { field: key, entry: Some(entry) };
    if key == "client_id"@ {
        if acc.client_id is Some {
            Err(dup)
        } else {
            match v {
                RawValue::Str(s) => Ok(EntryFields { client_id: Some(s@), ..acc }),
                _ => Err(wrong),
            }
        }
    } else if key == "client_secret"@ {
        if acc.client_secret is Some {
            Err(dup)
        } else {
            match v {
                RawValue::Str(s) => Ok(EntryFields { client_secret: Some(s@), ..acc }),
                _ => Err(wrong),
            }
        }
    } else if key == "url"@ {
        if acc.url is Some {
            Err(dup)
        } else {
            match v {
                RawValue::Str(s) => match url_parsed(s@) {
                    Some(u) => Ok(EntryFields { url: Some(u), ..acc }),
                    None => Err(ErrorModel::InvalidUrl { value: s@, entry }),
                },
                _ => Err(wrong),
            }
        }
    } else if key == "name"@ {
        if acc.name is Some {
            Err(dup)
        } else {
            match v {
                RawValue::Str(s) => Ok(EntryFields { name: Some(decode_spec(s@)), ..acc }),
                _ => Err(wrong),
            }
        }
    } else {
        Err(ErrorModel::UnknownField { field: key, entry: Some(entry) })
    }
}

/// Reads the keys of provider entry `entry` in order, stopping at the
/// first error.
pub open spec fn entry_fold(fields: Seq<(String, RawValue)>, entry: usize) -> Result<
    EntryFields,
    ErrorModel,
>
    decreases fields.len(),
{
    if fields.len() == 0 {
        Ok(no_fields())
    } else {
        match entry_fold(fields.drop_last(), entry) {
            Ok(acc) => entry_step(acc, fields.last().0@, fields.last().1, entry),
            Err(e) => Err(e),
        }
    }
}

/// What validating `v` as provider entry `entry` gives.
pub open spec fn entry_spec(v: RawValue, entry: usize) -> Result<ProviderModel, ErrorModel> {
    match v {
        RawValue::Table(fields) => table_spec(fields@, entry),
        _ => Err(ErrorModel::NotATable { entry: Some(entry) }),
    }
}

/// What validating the keys and values of a table as provider entry
/// `entry` gives.
pub open spec fn table_spec(fields: Seq<(String, RawValue)>, entry: usize) -> Result<
    ProviderModel,
    ErrorModel,
> {
    match entry_fold(fields, entry) {
            Err(e) => Err(e),
            Ok(acc) => {
                if acc.client_id is None {
                    Err(ErrorModel::MissingField { field: "client_id"@, entry })
                } else if acc.client_secret is None {
                    Err(ErrorModel::MissingField { field: "client_secret"@, entry })
                } else if acc.url is None {
                    Err(ErrorModel::MissingField { field: "url"@, entry })
                } else if acc.name is None {
                    Err(ErrorModel::MissingField { field: "name"@, entry })
                } else {
                    Ok(
                        ProviderModel {
                            client_id: acc.client_id->0,
                            client_secret: acc.client_secret->0,
                            url: acc.url->0,
                            name: acc.name->0,
                        },
                    )
                }
            },
    }
}

/// `f` is the key `key` holding the string `text`.
pub open spec fn is_wire_field(f: (String, RawValue), key: Seq<char>, text: Seq<char>) -> bool {
    &&& f.0@ == key
    &&& f.1 matches RawValue::Str(s) && s@ == text
}

/// `r` is the wire form of provider `m`: a table of exactly the keys
/// `client_id`, `client_secret`, `url` and `name`, in that order, with the
/// name in its canonical text. There is no `metadata` key.
pub open spec fn is_wire_entry(r: RawValue, m: ProviderModel) -> bool {
    &&& r matches RawValue::Table(fs) && {
        &&& fs@.len() == 4
        &&& is_wire_field(fs@[0], "client_id"@, m.client_id)
        &&& is_wire_field(fs@[1], "client_secret"@, m.client_secret)
        &&& is_wire_field(fs@[2], "url"@, m.url)
        &&& is_wire_field(fs@[3], "name"@, encode_spec(m.name))
    }
}

/// The wire form of a provider never holds a `metadata` key, whatever
/// discovery metadata the provider carries in memory.
pub proof fn lemma_wire_has_no_metadata(r: RawValue, m: ProviderModel)
    requires
        is_wire_entry(r, m),
    ensures
        forall|k: int|
            0 <= k < r->Table_0@.len() ==> (#[trigger] r->Table_0@[k]).0@ != "metadata"@,
{
    reveal_strlit("client_id");
    reveal_strlit("client_secret");
    reveal_strlit("url");
    reveal_strlit("name");
    reveal_strlit("metadata");
    let fs = r->Table_0@;
    assert forall|k: int| 0 <= k < fs.len() implies (#[trigger] fs[k]).0@ != "metadata"@ by {
        assert(fs[k].0@.len() != "metadata"@.len());
    }
}

/// Validating the wire form of a provider gives the provider back, where
/// its url is already in the form that parsing produces and its name is
/// one that decoding its own text produces.
pub proof fn lemma_wire_round_trip(r: RawValue, m: ProviderModel, entry: usize)
    requires
        is_wire_entry(r, m),
        url_parsed(m.url) == Some(m.url),
        decode_spec(encode_spec(m.name)) == m.name,
    ensures
        entry_spec(r, entry) == Ok::<ProviderModel, ErrorModel>(m),
{
    reveal_strlit("client_id");
    reveal_strlit("client_secret");
    reveal_strlit("url");
    reveal_strlit("name");
    let fs = r->Table_0@;
    assert("client_secret"@.len() != "client_id"@.len());
    assert("url"@.len() != "client_id"@.len() && "url"@.len() != "client_secret"@.len());
    assert("name"@ != "client_id"@ && "name"@ != "client_secret"@ && "name"@ != "url"@);
    assert(fs.take(0) =~= Seq::<(String, RawValue)>::empty());
    assert(fs.take(1).drop_last() =~= fs.take(0));
    assert(fs.take(2).drop_last() =~= fs.take(1));
    assert(fs.take(3).drop_last() =~= fs.take(2));
    assert(fs.take(4).drop_last() =~= fs.take(3));
    assert(fs.take(4) =~= fs);
    let a1 = EntryFields { client_id: Some(m.client_id), ..no_fields() };
    let a2 = EntryFields { client_secret: Some(m.client_secret), ..a1 };
    let a3 = EntryFields { url: Some(m.url), ..a2 };
    let a4 = EntryFields { name: Some(m.name), ..a3 };
    assert(entry_fold(fs.take(0), entry) == Ok::<EntryFields, ErrorModel>(no_fields()));
    assert(fs.take(1).last() == fs[0]);
    assert(entry_fold(fs.take(1), entry) == Ok::<EntryFields, ErrorModel>(a1));
    assert(fs.take(2).last() == fs[1]);
    assert(entry_fold(fs.take(2), entry) == Ok::<EntryFields, ErrorModel>(a2));
    assert(fs.take(3).last() == fs[2]);
    assert(entry_fold(fs.take(3), entry) == Ok::<EntryFields, ErrorModel>(a3));
    assert(fs.take(4).last() == fs[3]);
    assert(entry_fold(fs.take(4), entry) == Ok::<EntryFields, ErrorModel>(a4));
}

proof fn lemma_entry_fold_err_stays(fields: Seq<(String, RawValue)>, entry: usize, k: int)
    requires
        0 <= k <= fields.len(),
        entry_fold(fields.take(k), entry) is Err,
    ensures
        entry_fold(fields, entry) == entry_fold(fields.take(k), entry),
    decreases fields.len() - k,
{
    if k < fields.len() {
        assert(fields.take(k + 1).drop_last() =~= fields.take(k));
        lemma_entry_fold_err_stays(fields, entry, k + 1);
    } else {
        assert(fields.take(k) =~= fields);
    }
}

/// The view of an optional string.
pub open spec fn opt_str(o: Option<String>) -> Option<Seq<char>> {
    match o {
        Some(s) => Some(s@),
        None => None,
    }
}

/// The view of an optional provider name.
pub open spec fn opt_name(o: Option<ProviderName>) -> Option<NameModel> {
    match o {
        Some(n) => Some(n@),
        None => None,
    }
}

impl<M> OIDCProvider<M> {
    /// Validates `raw` as entry `entry` of the `providers` list. The keys
    /// are read in order and the first error is returned: an unknown key
    /// (`metadata` included), a repeated key, a value that is no string, or
    /// a `url` that is no absolute URL. Then the first of `client_id`,
    /// `client_secret`, `url`, `name` that is absent is reported. On
    /// success the metadata slot is empty.
    pub fn parse(raw: &RawValue, entry: usize) -> (r: Result<OIDCProvider<M>, ConfigError>)
        ensures
            match (r, entry_spec(*raw, entry)) {
                (Ok(p), Ok(m)) => p@ == m && p.metadata is None,
                (Err(e), Err(em)) => e@ == em,
                _ => false,
            },
    {
        match raw {
            RawValue::Table(fields) => OIDCProvider::from_table(fields, entry),
            _ => Err(ConfigError::NotATable { entry: Some(entry) }),
        }
    }

    /// The wire form of the provider: its four configured fields, the name
    /// in its canonical text. The metadata slot is never written out.
    pub fn to_raw(&self) -> (r: RawValue)
        ensures
            is_wire_entry(r, self@),
    {
        let mut fields: Vec<(String, RawValue)> = Vec::new();
        fields.push(("client_id".to_owned(), RawValue::Str(self.client_id.clone())));
        fields.push(("client_secret".to_owned(), RawValue::Str(self.client_secret.clone())));
        fields.push(("url".to_owned(), RawValue::Str(self.url.clone())));
        fields.push(("name".to_owned(), RawValue::Str(self.name.encode())));
        RawValue::Table(fields)
    }

    fn from_table(fields: &Vec<(String, RawValue)>, entry: usize) -> (r: Result<
        OIDCProvider<M>,
        ConfigError,
    >)
        ensures
            match (r, table_spec(fields@, entry)) {
                (Ok(p), Ok(m)) => p@ == m && p.metadata is None,
                (Err(e), Err(em)) => e@ == em,
                _ => false,
            },
    {
        let mut client_id: Option<String> = None;
        let mut client_secret: Option<String> = None;
        let mut url: Option<String> = None;
        let mut name: Option<ProviderName> = None;
        let mut i: usize = 0;
        while i < fields.len()
            invariant
                0 <= i <= fields@.len(),
                entry_fold(fields@.take(i as int), entry) == Ok::<EntryFields, ErrorModel>(
                    EntryFields {
                        client_id: opt_str(client_id),
                        client_secret: opt_str(client_secret),
                        url: opt_str(url),
                        name: opt_name(name),
                    },
                ),
            decreases fields@.len() - i,
        {
            let pair = &fields[i];
            let key = &pair.0;
            let value = &pair.1;
            proof {
                assert(fields@.take(i + 1).drop_last() =~= fields@.take(i as int));
                assert(fields@.take(i + 1).last() == fields@[i as int]);
            }
            let step: Result<(), ConfigError> = if key_is(key, "client_id") {
                if client_id.is_some() {
                    Err(ConfigError::DuplicateField { field: key.clone(), entry: Some(entry) })
                } else {
                    match value {
                        RawValue::Str(s) => {
                            client_id = Some(s.clone());
                            Ok(())
                        },
                        _ => Err(ConfigError::WrongType { field: key.clone(), entry: Some(entry) }),
                    }
                }
            } else if key_is(key, "client_secret") {
                if client_secret.is_some() {
                    Err(ConfigError::DuplicateField { field: key.clone(), entry: Some(entry) })
                } else {
                    match value {
                        RawValue::Str(s) => {
                            client_secret = Some(s.clone());
                            Ok(())
                        },
                        _ => Err(ConfigError::WrongType { field: key.clone(), entry: Some(entry) }),
                    }
                }
            } else if key_is(key, "url") {
                if url.is_some() {
                    Err(ConfigError::DuplicateField { field: key.clone(), entry: Some(entry) })
                } else {
                    match value {
                        RawValue::Str(s) => match parse_url(s.as_str()) {
                            Some(u) => {
                                url = Some(u);
                                Ok(())
                            },
                            None => Err(ConfigError::InvalidUrl { value: s.clone(), entry }),
                        },
                        _ => Err(ConfigError::WrongType { field: key.clone(), entry: Some(entry) }),
                    }
                }
            } else if key_is(key, "name") {
                if name.is_some() {
                    Err(ConfigError::DuplicateField { field: key.clone(), entry: Some(entry) })
                } else {
                    match value {
                        RawValue::Str(s) => {
                            name = Some(ProviderName::decode(s.as_str()));
                            Ok(())
                        },
                        _ => Err(ConfigError::WrongType { field: key.clone(), entry: Some(entry) }),
                    }
                }
            } else {
                Err(ConfigError::UnknownField { field: key.clone(), entry: Some(entry) })
            };
            if let Err(e) = step {
                proof {
                    lemma_entry_fold_err_stays(fields@, entry, i + 1);
                }
                return Err(e);
            }
            i = i + 1;
        }
        proof {
            assert(fields@.take(i as int) =~= fields@);
        }
        match (client_id, client_secret, url, name) {
            (None, _, _, _) => Err(
                ConfigError::MissingField { field: "client_id".to_owned(), entry },
            ),
            (_, None, _, _) => Err(
                ConfigError::MissingField { field: "client_secret".to_owned(), entry },
            ),
            (_, _, None, _) => Err(ConfigError::MissingField { field: "url".to_owned(), entry }),
            (_, _, _, None) => Err(ConfigError::MissingField { field: "name".to_owned(), entry }),
            (Some(client_id), Some(client_secret), Some(url), Some(name)) => Ok(
                OIDCProvider { client_id, client_secret, url, name, metadata: None },
            ),
        }
    }
}

} // verus!
