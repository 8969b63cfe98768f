//! Choice of the audience provider from the service's environment settings:
//! which provider (`AUDIENCE_PROVIDER`, default `static`), a single
//! audience (`AUDIENCE`) or a comma-separated list (`AUDIENCES`).
use vstd::prelude::*;
use crate::text::{chars_of, push_char};

verus! {

/// An audience provider with a fixed list of audiences.
#[derive(Debug)]
pub struct StaticAudienceProvider {
    audiences: Vec<String>,
}

impl StaticAudienceProvider {
    /// The audiences, as text.
    pub closed spec fn spec_audiences(&self) -> Seq<Seq<char>> {
        self.audiences@.map_values(|a: String| a@)
    }

    /// A provider for the given audiences.
    pub fn new(audiences: Vec<String>) -> (p: Self)
        ensures
            p.spec_audiences() == audiences@.map_values(|a: String| a@),
    {
        StaticAudienceProvider { audiences }
    }

    /// A provider for one audience.
    pub fn new_single_aud(audience: &str) -> (p: Self)
        ensures
            p.spec_audiences() == seq![audience@],
    {
        let mut v: Vec<String> = Vec::new();
        v.push(audience.to_owned());
        let p = StaticAudienceProvider { audiences: v };
        assert(p.spec_audiences() =~= seq![audience@]);
        p
    }

    /// The audiences.
    pub fn audiences(&self) -> (r: &Vec<String>)
        ensures
            r@.map_values(|a: String| a@) == self.spec_audiences(),
    {
        &self.audiences
    }
}

/// Why no audience provider could be set up.
#[derive(Debug, Clone, Copy, PartialEq, Eq, Structural)]
pub enum DiscoveryError {
    /// The static provider was chosen, but neither audience setting is set.
    NoAudienceConfigured,
    /// The provider setting names no known provider.
    InvalidAudienceProvider,
}

impl DiscoveryError {
    /// The error message.
    pub fn message(&self) -> (r: &'static str)
        ensures
            r@ == match self {
                DiscoveryError::NoAudienceConfigured => "No audience configured for static provider"@,
                DiscoveryError::InvalidAudienceProvider => "Invalid audience provider"@,
            },
    {
        match self {
            DiscoveryError::NoAudienceConfigured => "No audience configured for static provider",
            DiscoveryError::InvalidAudienceProvider => "Invalid audience provider",
        }
    }
}

/// Left-to-right scan behind `comma_pieces`: the pieces completed so far,
/// and the piece being read.
pub open spec fn scan_pieces(s: Seq<char>) -> (Seq<Seq<char>>, Seq<char>)
    decreases s.len(),
{
    if s.len() == 0 {
        (Seq::empty(), Seq::empty())
    } else {
        let (done, cur) = scan_pieces(s.drop_last());
        if s.last() == ',' {
            (done.push(cur), Seq::empty())
        } else {
            (done, cur.push(s.last()))
        }
    }
}

/// The pieces of `s` between commas, empty ones included: what
/// `str::split(",")` yields.
pub open spec fn comma_pieces(s: Seq<char>) -> Seq<Seq<char>> {
    let (done, cur) = scan_pieces(s);
    done.push(cur)
}

/// The pieces of `s` between commas.
pub fn split_commas(s: &str) -> (r: Vec<String>)
    ensures
        r@.map_values(|a: String| a@) == comma_pieces(s@),
{
    let cs = chars_of(s);
    let mut done: Vec<String> = Vec::new();
    let mut cur = String::new();
    let mut i: usize = 0;
    while i < cs.len()
        invariant
            i <= cs.len(),
            cs@ == s@,
            (done@.map_values(|a: String| a@), cur@) == scan_pieces(s@.take(i as int)),
        decreases cs.len() - i,
    {
        let c = cs[i];
        proof {
            assert(s@.take(i + 1).drop_last() =~= s@.take(i as int));
        }
        if c == ',' {
            let ghost before = done@;
            let piece = cur;
            done.push(piece);
            cur = String::new();
            assert(done@.map_values(|a: String| a@) =~= before.map_values(|a: String| a@).push(piece@));
        } else {
            push_char(&mut cur, c);
        }
        i = i + 1;
    }
    assert(s@.take(cs.len() as int) =~= s@);
    let ghost before = done@;
    let last = cur;
    done.push(last);
    assert(done@.map_values(|a: String| a@) =~= before.map_values(|a: String| a@).push(last@));
    done
}

/// The code point of the ASCII lower-case form of a character.
pub open spec fn ascii_lower_code(c: char) -> u32 {
    if 'A' <= c <= 'Z' {
        ((c as u32) + 32) as u32
    } else {
        c as u32
    }
}

/// Whether the provider setting, lower-cased, is `static`. Only the letters
/// A-Z can lower-case to the letters of `static` one for one (the Kelvin
/// sign lower-cases to `k`, which `static` lacks), so this is what
/// comparing `str::to_lowercase` of the setting with `static` decides.
pub open spec fn names_static_provider(setting: Seq<char>) -> bool {
    setting.len() == 6 && forall|i: int| 0 <= i < 6 ==> ascii_lower_code(#[trigger] setting[i]) == "static"@[i] as u32
}

/// The provider for a single audience, when the setting is not empty.
pub fn discover_audience(audience: &str) -> (r: Option<StaticAudienceProvider>)
    ensures
        audience@.len() == 0 ==> r is None,
        audience@.len() > 0 ==> (r matches Some(p) && p.spec_audiences() == seq![audience@]),
{
    if audience.is_empty() {
        return None;
    }
    Some(StaticAudienceProvider::new_single_aud(audience))
}

/// The provider for a comma-separated list of audiences, when the setting
/// is not empty.
pub fn discover_audiences(audiences: &str) -> (r: Option<StaticAudienceProvider>)
    ensures
        audiences@.len() == 0 ==> r is None,
        audiences@.len() > 0 ==> (r matches Some(p) && p.spec_audiences() == comma_pieces(audiences@)),
{
    if audiences.is_empty() {
        return None;
    }
    Some(StaticAudienceProvider::new(split_commas(audiences)))
}

/// The static provider: the single audience if set, otherwise the list if
/// set, otherwise an error.
pub fn discover_static_provider(audience: &str, audiences: &str) -> (r: Result<
    StaticAudienceProvider,
    DiscoveryError,
>)
    ensures
        audience@.len() > 0 ==> (r matches Ok(p) && p.spec_audiences() == seq![audience@]),
        audience@.len() == 0 && audiences@.len() > 0 ==> (r matches Ok(p) && p.spec_audiences()
            == comma_pieces(audiences@)),
        audience@.len() == 0 && audiences@.len() == 0 ==> r == Err::<StaticAudienceProvider, DiscoveryError>(
            DiscoveryError::NoAudienceConfigured,
        ),
{
    let single = discover_audience(audience);
    let list = discover_audiences(audiences);
    match single {
        Some(p) => Ok(p),
        None => match list {
            Some(p) => Ok(p),
            None => Err(DiscoveryError::NoAudienceConfigured),
        },
    }
}

/// Whether the provider setting, lower-cased, is `static`.
fn is_static_setting(setting: &str) -> (r: bool)
    ensures
        r == names_static_provider(setting@),
{
    let cs = chars_of(setting);
    let want = chars_of("static");
    proof {
        reveal_strlit("static");
    }
    if cs.len() != 6 {
        return false;
    }
    let mut i: usize = 0;
    while i < 6
        invariant
            cs@ == setting@,
            want@ == "static"@,
            want.len() == 6,
            cs.len() == 6,
            i <= 6,
            forall|j: int| 0 <= j < i ==> ascii_lower_code(#[trigger] cs@[j]) == "static"@[j] as u32,
        decreases 6 - i,
    {
        let c = cs[i];
        let lower: u32 = if 'A' <= c && c <= 'Z' {
            (c as u32) + 32
        } else {
            c as u32
        };
        if lower != want[i] as u32 {
            return false;
        }
        i = i + 1;
    }
    true
}

/// The audience provider that the settings choose: `static` (in any case)
/// gives the static provider, anything else is refused.
pub fn discover_audience_provider(provider: &str, audience: &str, audiences: &str) -> (r: Result<
    StaticAudienceProvider,
    DiscoveryError,
>)
    ensures
        !names_static_provider(provider@) ==> r == Err::<StaticAudienceProvider, DiscoveryError>(
            DiscoveryError::InvalidAudienceProvider,
        ),
        names_static_provider(provider@) && audience@.len() > 0 ==> (r matches Ok(p)
            && p.spec_audiences() == seq![audience@]),
        names_static_provider(provider@) && audience@.len() == 0 && audiences@.len() > 0
            ==> (r matches Ok(p) && p.spec_audiences() == comma_pieces(audiences@)),
        names_static_provider(provider@) && audience@.len() == 0 && audiences@.len() == 0 ==> r
            == Err::<StaticAudienceProvider, DiscoveryError>(DiscoveryError::NoAudienceConfigured),
{
    if is_static_setting(provider) {
        discover_static_provider(audience, audiences)
    } else {
        Err(DiscoveryError::InvalidAudienceProvider)
    }
}

/// Provider settings that differ only in ASCII letter case choose the same
/// provider: whether a setting names the static provider depends only on its
/// ASCII lower-case form.
pub proof fn lemma_provider_setting_ascii_case_insensitive(a: Seq<char>, b: Seq<char>)
    requires
        a.len() == b.len(),
        forall|i: int| 0 <= i < a.len() ==> ascii_lower_code(#[trigger] a[i]) == ascii_lower_code(b[i]),
    ensures
        names_static_provider(a) == names_static_provider(b),
{
    if names_static_provider(a) {
        assert forall|i: int| 0 <= i < 6 implies ascii_lower_code(#[trigger] b[i]) == "static"@[i] as u32 by {
            assert(ascii_lower_code(a[i]) == ascii_lower_code(b[i]));
        }
    }
    if names_static_provider(b) {
        assert forall|i: int| 0 <= i < 6 implies ascii_lower_code(#[trigger] a[i]) == "static"@[i] as u32 by {
            assert(ascii_lower_code(a[i]) == ascii_lower_code(b[i]));
        }
    }
}

} // verus!
