//! Random session identities: a subdomain and a correlation id cut from the
//! same random string, so that the shorter one is a prefix of the longer one.

use rand::distributions::DistString;
use vstd::prelude::*;

verus! {

/// An ASCII letter or digit.
pub open spec fn is_ascii_alnum(c: char) -> bool {
    ('a' <= c && c <= 'z') || ('A' <= c && c <= 'Z') || ('0' <= c && c <= '9')
}

/// A lower-case ASCII letter or a digit.
pub open spec fn is_lower_alnum(c: char) -> bool {
    ('a' <= c && c <= 'z') || ('0' <= c && c <= '9')
}

/// ASCII lower-casing of one character.
pub open spec fn ascii_lower(c: char) -> char {
    if 'A' <= c && c <= 'Z' {
        ((c as u32) + 32) as char
    } else {
        c
    }
}

pub open spec fn ascii_lower_seq(s: Seq<char>) -> Seq<char> {
    s.map_values(|c: char| ascii_lower(c))
}

/// Relies on str::to_ascii_lowercase: ASCII capitals become lower case and
/// every other character is kept.
#[verifier::external_body]
fn to_ascii_lower(s: &str) -> (r: String)
    ensures
        r@ == ascii_lower_seq(s@),
{
    s.to_ascii_lowercase()
}

/// Relies on rand's `Alphanumeric` distribution through
/// `DistString::sample_string`: `len` characters, each an ASCII letter or digit.
#[verifier::external_body]
fn random_alphanumeric(len: usize) -> (r: String)
    ensures
        r@.len() == len,
        forall|i: int| 0 <= i < len ==> is_ascii_alnum(#[trigger] r@[i]),
{
    rand::distributions::Alphanumeric.sample_string(&mut rand::thread_rng(), len)
}

/// Lengths of the generated subdomain and correlation id. They must match what
/// the interaction server expects.
#[derive(Debug, Clone, Copy, PartialEq, Eq)]
pub struct CorrelationConfig {
    pub subdomain_length: usize,
    pub correlation_id_length: usize,
}

impl CorrelationConfig {
    /// The lengths the public interaction servers expect.
    pub fn default_lengths() -> (r: CorrelationConfig)
        ensures
            r.subdomain_length == 33,
            r.correlation_id_length == 20,
    {
        CorrelationConfig { subdomain_length: 33, correlation_id_length: 20 }
    }

    pub open spec fn sample_length(self) -> nat {
        if self.subdomain_length >= self.correlation_id_length {
            self.subdomain_length as nat
        } else {
            self.correlation_id_length as nat
        }
    }
}

impl Default for CorrelationConfig {
    fn default() -> (r: CorrelationConfig)
        ensures
            r.subdomain_length == 33,
            r.correlation_id_length == 20,
    {
        CorrelationConfig::default_lengths()
    }
}

/// The identity of one registration.
#[derive(Debug, Clone, PartialEq, Eq)]
pub struct CorrelationData {
    pub subdomain: String,
    pub correlation_id: String,
}

/// The identity cut from a random sample: both parts are prefixes of the
/// lower-cased sample.
pub open spec fn identity_of(sample: Seq<char>, config: CorrelationConfig) -> (Seq<char>, Seq<char>) {
    let lowered = ascii_lower_seq(sample);
    (lowered.take(config.subdomain_length as int), lowered.take(config.correlation_id_length as int))
}

impl CorrelationData {
    /// Cuts an identity out of `sample`: the subdomain is its first
    /// `subdomain_length` characters and the correlation id its first
    /// `correlation_id_length` characters, both lower-cased.
    pub fn from_sample(sample: &str, config: &CorrelationConfig) -> (r: CorrelationData)
        requires
            sample@.len() >= config.sample_length(),
        ensures
            (r.subdomain@, r.correlation_id@) == identity_of(sample@, *config),
    {
        let lowered = to_ascii_lower(sample);
        let sub = lowered.as_str().substring_char(0, config.subdomain_length);
        let corr = lowered.as_str().substring_char(0, config.correlation_id_length);
        let r = CorrelationData {
            subdomain: String::from_str(sub),
            correlation_id: String::from_str(corr),
        };
        assert(lowered@.subrange(0, config.subdomain_length as int) =~= lowered@.take(
            config.subdomain_length as int,
        ));
        assert(lowered@.subrange(0, config.correlation_id_length as int) =~= lowered@.take(
            config.correlation_id_length as int,
        ));
        r
    }

    /// Draws a fresh identity. The shorter of the two parts is a prefix of the
    /// longer one, and both consist of lower-case ASCII letters and digits.
    pub fn generate_data(config: &CorrelationConfig) -> (r: CorrelationData)
        ensures
            r.subdomain@.len() == config.subdomain_length,
            r.correlation_id@.len() == config.correlation_id_length,
            config.correlation_id_length <= config.subdomain_length ==> r.correlation_id@.is_prefix_of(
                r.subdomain@,
            ),
            config.subdomain_length <= config.correlation_id_length ==> r.subdomain@.is_prefix_of(
                r.correlation_id@,
            ),
            forall|i: int| 0 <= i < r.subdomain@.len() ==> is_lower_alnum(#[trigger] r.subdomain@[i]),
            forall|i: int|
                0 <= i < r.correlation_id@.len() ==> is_lower_alnum(#[trigger] r.correlation_id@[i]),
    {
        let len = if config.subdomain_length >= config.correlation_id_length {
            config.subdomain_length
        } else {
            config.correlation_id_length
        };
        let sample = random_alphanumeric(len);
        let r = CorrelationData::from_sample(sample.as_str(), config);
        proof {
            let lowered = ascii_lower_seq(sample@);
            assert forall|i: int| 0 <= i < lowered.len() implies is_lower_alnum(#[trigger] lowered[i]) by {
                assert(is_ascii_alnum(sample@[i]));
            }
            assert(r.subdomain@ =~= lowered.take(config.subdomain_length as int));
            assert(r.correlation_id@ =~= lowered.take(config.correlation_id_length as int));
        }
        r
    }
}

} // verus!
