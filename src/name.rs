//! The provider-name codec: a closed set of well-known providers with an
//! open fallback, mapped to and from a plain lowercase string.
use vstd::prelude::*;

verus! {

/// What `str::to_lowercase` returns for a given sequence of characters.
pub uninterp spec fn lower_of(s: Seq<char>) -> Seq<char>;

/// Relies on `str::to_lowercase`: the Unicode lowercase mapping of each
/// character, which depends on the characters alone.
#[verifier::external_body]
fn lowercase(s: &str) -> (r: String)
    ensures
        r@ == lower_of(s@),
{
    s.to_lowercase()
}

/// The identity provider brand of a configured provider.
#[derive(Clone, Debug)]
pub enum ProviderName {
    Google,
    Slack,
    Facebook,
    Apple,
    Okta,
    Microsoft,
    Other(String),
}

/// The mathematical model of a provider name: the brand, with the text of
/// an unrecognised one.
pub enum NameModel {
    Google,
    Slack,
    Facebook,
    Apple,
    Okta,
    Microsoft,
    Other(Seq<char>),
}

impl View for ProviderName {
    type V = NameModel;

    open spec fn view(&self) -> NameModel {
        match self {
            ProviderName::Google => NameModel::Google,
            ProviderName::Slack => NameModel::Slack,
            ProviderName::Facebook => NameModel::Facebook,
            ProviderName::Apple => NameModel::Apple,
            ProviderName::Okta => NameModel::Okta,
            ProviderName::Microsoft => NameModel::Microsoft,
            ProviderName::Other(s) => NameModel::Other(s@),
        }
    }
}

/// Whether `t` is the tag of one of the well-known providers.
pub open spec fn is_known_tag(t: Seq<char>) -> bool {
    ||| t == "google"@
    ||| t == "slack"@
    ||| t == "facebook"@
    ||| t == "apple"@
    ||| t == "okta"@
    ||| t == "microsoft"@
}

/// The name that an already lowercased text stands for.
pub open spec fn name_of_tag(t: Seq<char>) -> NameModel {
    if t == "google"@ {
        NameModel::Google
    } else if t == "slack"@ {
        NameModel::Slack
    } else if t == "facebook"@ {
        NameModel::Facebook
    } else if t == "apple"@ {
        NameModel::Apple
    } else if t == "okta"@ {
        NameModel::Okta
    } else if t == "microsoft"@ {
        NameModel::Microsoft
    } else {
        NameModel::Other(t)
    }
}

/// The name that any text decodes to: matching is case-insensitive.
pub open spec fn decode_spec(s: Seq<char>) -> NameModel {
    name_of_tag(lower_of(s))
}

/// The wire text of a name.
pub open spec fn encode_spec(n: NameModel) -> Seq<char> {
    match n {
        NameModel::Google => "google"@,
        NameModel::Slack => "slack"@,
        NameModel::Facebook => "facebook"@,
        NameModel::Apple => "apple"@,
        NameModel::Okta => "okta"@,
        NameModel::Microsoft => "microsoft"@,
        NameModel::Other(t) => t,
    }
}

impl ProviderName {
    /// The name that an already lowercased text stands for; an unrecognised
    /// text becomes the fallback variant holding it unchanged.
    pub fn from_lowercase(t: String) -> (r: ProviderName)
        ensures
            r@ == name_of_tag(t@),
    {
        if t == "google".to_owned() {
            ProviderName::Google
        } else if t == "slack".to_owned() {
            ProviderName::Slack
        } else if t == "facebook".to_owned() {
            ProviderName::Facebook
        } else if t == "apple".to_owned() {
            ProviderName::Apple
        } else if t == "okta".to_owned() {
            ProviderName::Okta
        } else if t == "microsoft".to_owned() {
            ProviderName::Microsoft
        } else {
            ProviderName::Other(t)
        }
    }

    /// Decodes a provider name: the text is lowercased, then matched against
    /// the well-known tags. Every text decodes; no whitespace is trimmed.
    pub fn decode(s: &str) -> (r: ProviderName)
        ensures
            r@ == decode_spec(s@),
    {
        ProviderName::from_lowercase(lowercase(s))
    }

    /// Parses a provider name. This never fails.
    pub fn from_str(s: &str) -> (r: Result<ProviderName, &'static str>)
        ensures
            r matches Ok(n) && n@ == decode_spec(s@),
    {
        Ok(ProviderName::decode(s))
    }

    /// The canonical wire text of the name: the lowercase tag of a
    /// well-known provider, or the stored text of the fallback variant.
    pub fn encode(&self) -> (r: String)
        ensures
            r@ == encode_spec(self@),
    {
        match self {
            ProviderName::Google => "google".to_owned(),
            ProviderName::Slack => "slack".to_owned(),
            ProviderName::Facebook => "facebook".to_owned(),
            ProviderName::Apple => "apple".to_owned(),
            ProviderName::Okta => "okta".to_owned(),
            ProviderName::Microsoft => "microsoft".to_owned(),
            ProviderName::Other(s) => s.clone(),
        }
    }
}

impl PartialEq for ProviderName {
    fn eq(&self, o: &ProviderName) -> (r: bool)
        ensures
            r == (self@ == o@),
    {
        match (self, o) {
            (ProviderName::Google, ProviderName::Google) => true,
            (ProviderName::Slack, ProviderName::Slack) => true,
            (ProviderName::Facebook, ProviderName::Facebook) => true,
            (ProviderName::Apple, ProviderName::Apple) => true,
            (ProviderName::Okta, ProviderName::Okta) => true,
            (ProviderName::Microsoft, ProviderName::Microsoft) => true,
            (ProviderName::Other(a), ProviderName::Other(b)) => *a == *b,
            _ => false,
        }
    }
}

impl vstd::std_specs::cmp::PartialEqSpecImpl for ProviderName {
    open spec fn obeys_eq_spec() -> bool {
        true
    }

    open spec fn eq_spec(&self, o: &ProviderName) -> bool {
        self@ == o@
    }
}

impl std::str::FromStr for ProviderName {
    type Err = &'static str;

    fn from_str(s: &str) -> Result<ProviderName, &'static str> {
        Ok(ProviderName::decode(s))
    }
}

/// Encoding a decoded name gives back the lowercased input, for every
/// input: a well-known tag in any casing comes back as its lowercase tag,
/// and any other text as its lowercase form.
pub proof fn lemma_encode_decode(s: Seq<char>)
    ensures
        encode_spec(decode_spec(s)) == lower_of(s),
{
}

/// A text whose lowercase form is no well-known tag decodes to the fallback
/// variant holding exactly that lowercase form.
pub proof fn lemma_unknown_falls_back(s: Seq<char>)
    requires
        !is_known_tag(lower_of(s)),
    ensures
        decode_spec(s) == NameModel::Other(lower_of(s)),
{
}

/// A text whose lowercase form is a well-known tag decodes to a well-known
/// variant, never to the fallback.
pub proof fn lemma_known_is_recognised(s: Seq<char>)
    requires
        is_known_tag(lower_of(s)),
    ensures
        !(decode_spec(s) is Other),
{
}

} // verus!
