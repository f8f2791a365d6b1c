//! The root configuration object and its validation.
use vstd::prelude::*;
use crate::error::{ConfigError, ErrorModel};
use crate::provider::{entry_spec, is_wire_entry, OIDCProvider, ProviderModel};
use crate::raw::{key_is, RawValue};

verus! {

/// The root configuration: the configured identity providers, in the
/// order of the input.
#[derive(Clone, Debug)]
pub struct OIDCConfig<M> {
    providers: Vec<OIDCProvider<M>>,
}

/// The models of a sequence of providers.
pub open spec fn models<M>(ps: Seq<OIDCProvider<M>>) -> Seq<ProviderModel> {
    ps.map_values(|p: OIDCProvider<M>| p@)
}

/// No provider of `ps` carries discovery metadata.
pub open spec fn no_metadata<M>(ps: Seq<OIDCProvider<M>>) -> bool {
    forall|k: int| 0 <= k < ps.len() ==> (#[trigger] ps[k]).metadata is None
}

impl<M> OIDCConfig<M> {
    /// The configured providers, in order.
    pub closed spec fn entries(&self) -> Seq<OIDCProvider<M>> {
        self.providers@
    }
}

impl<M> View for OIDCConfig<M> {
    type V = Seq<ProviderModel>;

    open spec fn view(&self) -> Seq<ProviderModel> {
        models(self.entries())
    }
}

/// Validates the entries of the `providers` list in order, stopping at the
/// first entry that fails.
pub open spec fn list_spec(items: Seq<RawValue>) -> Result<Seq<ProviderModel>, ErrorModel>
    decreases items.len(),
{
    if items.len() == 0 {
        Ok(Seq::empty())
    } else {
        match list_spec(items.drop_last()) {
            Err(e) => Err(e),
            Ok(ps) => match entry_spec(items.last(), (items.len() - 1) as usize) {
                Ok(p) => Ok(ps.push(p)),
                Err(e) => Err(e),
            },
        }
    }
}

/// Reads one key of the root table; `acc` is the providers read so far,
/// `None` while the key `providers` has not been met.
pub open spec fn root_step(acc: Option<Seq<ProviderModel>>, key: Seq<char>, v: RawValue) -> Result<
    Option<Seq<ProviderModel>>,
    ErrorModel,
> {
    if key == "providers"@ {
        if acc is Some {
            Err(ErrorModel::DuplicateField { field: key, entry: None })
        } else {
            match v {
                RawValue::List(items) => match list_spec(items@) {
                    Ok(ps) => Ok(Some(ps)),
                    Err(e) => Err(e),
                },
                _ => Err(ErrorModel::WrongType { field: key, entry: None }),
            }
        }
    } else {
        Err(ErrorModel::UnknownField { field: key, entry: None })
    }
}

/// Reads the keys of the root table in order, stopping at the first error.
pub open spec fn root_fold(fields: Seq<(String, RawValue)>) -> Result<
    Option<Seq<ProviderModel>>,
    ErrorModel,
>
    decreases fields.len(),
{
    if fields.len() == 0 {
        Ok(None)
    } else {
        match root_fold(fields.drop_last()) {
            Ok(acc) => root_step(acc, fields.last().0@, fields.last().1),
            Err(e) => Err(e),
        }
    }
}

/// What validating `v` as a root configuration gives: an absent
/// `providers` key means no providers.
pub open spec fn config_spec(v: RawValue) -> Result<Seq<ProviderModel>, ErrorModel> {
    match v {
        RawValue::Table(fields) => match root_fold(fields@) {
            Err(e) => Err(e),
            Ok(None) => Ok(Seq::empty()),
            Ok(Some(ps)) => Ok(ps),
        },
        _ => Err(ErrorModel::NotATable { entry: None }),
    }
}

/// `r` is the wire form of a configuration with providers `ms`: a table
/// whose one key `providers` holds the wire form of each, in order.
pub open spec fn is_wire_config(r: RawValue, ms: Seq<ProviderModel>) -> bool {
    &&& r matches RawValue::Table(fs) && {
        &&& fs@.len() == 1
        &&& fs@[0].0@ == "providers"@
        &&& fs@[0].1 matches RawValue::List(items) && {
            &&& items@.len() == ms.len()
            &&& forall|k: int| 0 <= k < ms.len() ==> is_wire_entry(#[trigger] items@[k], ms[k])
        }
    }
}

proof fn lemma_list_err_stays(items: Seq<RawValue>, k: int)
    requires
        0 <= k <= items.len(),
        list_spec(items.take(k)) is Err,
    ensures
        list_spec(items) == list_spec(items.take(k)),
    decreases items.len() - k,
{
    if k < items.len() {
        assert(items.take(k + 1).drop_last() =~= items.take(k));
        lemma_list_err_stays(items, k + 1);
    } else {
        assert(items.take(k) =~= items);
    }
}

proof fn lemma_root_err_stays(fields: Seq<(String, RawValue)>, k: int)
    requires
        0 <= k <= fields.len(),
        root_fold(fields.take(k)) is Err,
    ensures
        root_fold(fields) == root_fold(fields.take(k)),
    decreases fields.len() - k,
{
    if k < fields.len() {
        assert(fields.take(k + 1).drop_last() =~= fields.take(k));
        lemma_root_err_stays(fields, k + 1);
    } else {
        assert(fields.take(k) =~= fields);
    }
}

/// Validation stops at the first failing entry of the `providers` list:
/// where entries `0..i` are valid and entry `i` is not, the list fails
/// with entry `i`'s own error, whatever follows it.
pub proof fn lemma_fail_fast(items: Seq<RawValue>, i: int)
    requires
        0 <= i < items.len(),
        forall|j: int| 0 <= j < i ==> (#[trigger] entry_spec(items[j], j as usize)) is Ok,
        entry_spec(items[i], i as usize) is Err,
    ensures
        list_spec(items) == Err::<Seq<ProviderModel>, ErrorModel>(
            entry_spec(items[i], i as usize)->Err_0,
        ),
{
    lemma_list_prefix_ok(items, i);
    assert(items.take(i + 1).drop_last() =~= items.take(i));
    assert(items.take(i + 1).last() == items[i]);
    lemma_list_err_stays(items, i + 1);
}

proof fn lemma_list_prefix_ok(items: Seq<RawValue>, k: int)
    requires
        0 <= k <= items.len(),
        forall|j: int| 0 <= j < k ==> (#[trigger] entry_spec(items[j], j as usize)) is Ok,
    ensures
        list_spec(items.take(k)) is Ok,
    decreases k,
{
    if k > 0 {
        lemma_list_prefix_ok(items, k - 1);
        assert(items.take(k).drop_last() =~= items.take(k - 1));
        assert(items.take(k).last() == items[k - 1]);
    }
}

/// Validates the entries of a `providers` list, in order.
fn parse_list<M>(items: &Vec<RawValue>) -> (r: Result<Vec<OIDCProvider<M>>, ConfigError>)
    ensures
        match (r, list_spec(items@)) {
            (Ok(ps), Ok(ms)) => models(ps@) == ms && no_metadata(ps@),
            (Err(e), Err(em)) => e@ == em,
            _ => false,
        },
{
    let mut out: Vec<OIDCProvider<M>> = Vec::new();
    let mut i: usize = 0;
    proof {
        assert(models(out@) =~= Seq::<ProviderModel>::empty());
        assert(items@.take(0) =~= Seq::<RawValue>::empty());
    }
    while i < items.len()
        invariant
            0 <= i <= items@.len(),
            list_spec(items@.take(i as int)) == Ok::<Seq<ProviderModel>, ErrorModel>(
                models(out@),
            ),
            no_metadata(out@),
        decreases items@.len() - i,
    {
        proof {
            assert(items@.take(i + 1).drop_last() =~= items@.take(i as int));
            assert(items@.take(i + 1).last() == items@[i as int]);
        }
        match OIDCProvider::parse(&items[i], i) {
            Ok(p) => {
                let ghost prev = out@;
                out.push(p);
                proof {
                    assert(models(out@) =~= models(prev).push(out@.last()@));
                }
            },
            Err(e) => {
                proof {
                    lemma_list_err_stays(items@, i + 1);
                }
                return Err(e);
            },
        }
        i = i + 1;
    }
    proof {
        assert(items@.take(i as int) =~= items@);
    }
    Ok(out)
}

impl<M> OIDCConfig<M> {
    /// A configuration holding `providers`, in order.
    pub fn new(providers: Vec<OIDCProvider<M>>) -> (r: OIDCConfig<M>)
        ensures
            r.entries() == providers@,
    {
        OIDCConfig { providers }
    }

    /// The configured providers, in order.
    pub fn providers(&self) -> (r: &Vec<OIDCProvider<M>>)
        ensures
            r@ == self.entries(),
    {
        &self.providers
    }

    /// Validates a raw configuration. The root must be a table whose only
    /// key is `providers`, a list of provider entries; any other key is
    /// rejected. The keys are read in order, the entries validated in
    /// order, and the first error is returned. An absent `providers` key
    /// gives no providers. On success no provider carries metadata.
    pub fn parse(raw: &RawValue) -> (r: Result<OIDCConfig<M>, ConfigError>)
        ensures
            match (r, config_spec(*raw)) {
                (Ok(c), Ok(ms)) => c@ == ms && no_metadata(c.entries()),
                (Err(e), Err(em)) => e@ == em,
                _ => false,
            },
    {
        match raw {
            RawValue::Table(fields) => OIDCConfig::from_table(fields),
            _ => Err(ConfigError::NotATable { entry: None }),
        }
    }

    /// The wire form of the configuration.
    pub fn to_raw(&self) -> (r: RawValue)
        ensures
            is_wire_config(r, self@),
    {
        let mut items: Vec<RawValue> = Vec::new();
        let mut i: usize = 0;
        while i < self.providers.len()
            invariant
                0 <= i <= self.providers@.len(),
                items@.len() == i,
                forall|k: int| 0 <= k < i ==> is_wire_entry(#[trigger] items@[k], self.providers@[k]@),
            decreases self.providers@.len() - i,
        {
            items.push(self.providers[i].to_raw());
            i = i + 1;
        }
        let mut fields: Vec<(String, RawValue)> = Vec::new();
        fields.push(("providers".to_owned(), RawValue::List(items)));
        RawValue::Table(fields)
    }

    fn from_table(fields: &Vec<(String, RawValue)>) -> (r: Result<OIDCConfig<M>, ConfigError>)
        ensures
            match (r, config_spec(RawValue::Table(*fields))) {
                (Ok(c), Ok(ms)) => c@ == ms && no_metadata(c.entries()),
                (Err(e), Err(em)) => e@ == em,
                _ => false,
            },
    {
        let mut providers: Option<Vec<OIDCProvider<M>>> = None;
        let mut i: usize = 0;
        while i < fields.len()
            invariant
                0 <= i <= fields@.len(),
                match providers {
                    Some(ps) => root_fold(fields@.take(i as int)) == Ok::<
                        Option<Seq<ProviderModel>>,
                        ErrorModel,
                    >(Some(models(ps@))) && no_metadata(ps@),
                    None => root_fold(fields@.take(i as int)) == Ok::<
                        Option<Seq<ProviderModel>>,
                        ErrorModel,
                    >(None),
                },
            decreases fields@.len() - i,
        {
            let pair = &fields[i];
            let key = &pair.0;
            let value = &pair.1;
            proof {
                assert(fields@.take(i + 1).drop_last() =~= fields@.take(i as int));
                assert(fields@.take(i + 1).last() == fields@[i as int]);
            }
            if !key_is(key, "providers") {
                proof {
                    lemma_root_err_stays(fields@, i + 1);
                }
                return Err(ConfigError::UnknownField { field: key.clone(), entry: None });
            }
            if providers.is_some() {
                proof {
                    lemma_root_err_stays(fields@, i + 1);
                }
                return Err(ConfigError::DuplicateField { field: key.clone(), entry: None });
            }
            match value {
                RawValue::List(items) => match parse_list(items) {
                    Ok(ps) => {
                        providers = Some(ps);
                    },
                    Err(e) => {
                        proof {
                            lemma_root_err_stays(fields@, i + 1);
                        }
                        return Err(e);
                    },
                },
                _ => {
                    proof {
                        lemma_root_err_stays(fields@, i + 1);
                    }
                    return Err(ConfigError::WrongType { field: key.clone(), entry: None });
                },
            }
            i = i + 1;
        }
        proof {
            assert(fields@.take(i as int) =~= fields@);
        }
        match providers {
            Some(ps) => Ok(OIDCConfig { providers: ps }),
            None => {
                let ps: Vec<OIDCProvider<M>> = Vec::new();
                proof {
                    assert(models(ps@) =~= Seq::<ProviderModel>::empty());
                }
                Ok(OIDCConfig { providers: ps })
            },
        }
    }
}

impl<M> Default for OIDCConfig<M> {
    /// A configuration with no providers.
    fn default() -> (r: OIDCConfig<M>)
        ensures
            r.entries() == Seq::<OIDCProvider<M>>::empty(),
    {
        OIDCConfig { providers: Vec::new() }
    }
}

} // verus!
