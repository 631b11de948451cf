//! The temporary wallet: its name, made from the clock, and the URL under which it answers.

use crate::text::{
    all_digits, decimal, decimal_text, is_digit, joined, lemma_decimal_round_trip,
};
use std::time::{Duration, SystemTime, SystemTimeError};
use vstd::prelude::*;
use vstd::string::*;

verus! {

/// A reading of the system clock.
#[verifier::external_type_specification]
#[verifier::external_body]
pub struct ExSystemTime(SystemTime);

/// The error for a clock that runs before the epoch.
#[verifier::external_type_specification]
#[verifier::external_body]
pub struct ExSystemTimeError(SystemTimeError);

/// `SystemTime::now` of the standard library: whatever the clock shows. Nothing is claimed of it.
pub assume_specification[ SystemTime::now ]() -> (now: SystemTime)
;

/// The nanoseconds that a duration holds, as `Duration::as_nanos` counts them.
pub uninterp spec fn nanos_in(duration: Duration) -> nat;

/// `Duration::as_millis` of the standard library.
///
/// Trusted: it returns the whole milliseconds that the duration holds.
pub assume_specification[ Duration::as_millis ](duration: &Duration) -> (millis: u128)
    ensures
        millis == nanos_in(*duration) / 1_000_000,
;

/// How many nanoseconds after the Unix epoch a reading of the clock lies; negative before it.
pub uninterp spec fn nanos_after_epoch(reading: SystemTime) -> int;

/// `SystemTime::duration_since` of the standard library, counted from the Unix epoch.
///
/// Trusted: a reading at or after the epoch gives the time that has passed since the epoch, and
/// only a reading before the epoch gives an error.
#[verifier::external_body]
fn since_epoch(now: SystemTime) -> (elapsed: Result<Duration, SystemTimeError>)
    ensures
        match elapsed {
            Ok(elapsed) => nanos_in(elapsed) == nanos_after_epoch(now),
            Err(_) => nanos_after_epoch(now) < 0,
        },
{
    now.duration_since(SystemTime::UNIX_EPOCH)
}

/// The name of the wallet made at that many milliseconds after the epoch.
pub open spec fn wallet_name_at(millis: nat) -> Seq<char> {
    "lpk-opener-"@ + decimal(millis)
}

/// Names the wallet made at that many milliseconds after the epoch.
pub fn wallet_name(millis: u128) -> (name: String)
    ensures
        name@ == wallet_name_at(millis as nat),
{
    joined("lpk-opener-", decimal_text(millis).as_str())
}

/// The name of the wallet made that many nanoseconds after the epoch: by the whole milliseconds. A
/// time before the epoch gives none.
pub open spec fn wallet_name_after(nanos: int) -> Option<Seq<char>> {
    if nanos >= 0 {
        Some(wallet_name_at((nanos / 1_000_000) as nat))
    } else {
        None
    }
}

/// Names a wallet by the present time. There is no name while the clock is before the epoch. What
/// the clock shows is not stated: some reading of it gave the name, or gave none.
pub fn unique_wallet_name() -> (name: Option<String>)
    ensures
        exists|now: SystemTime|
            match name {
                Some(name) => wallet_name_after(#[trigger] nanos_after_epoch(now)) == Some(name@),
                None => wallet_name_after(nanos_after_epoch(now)) is None,
            },
{
    let now = SystemTime::now();
    let name = wallet_name_since(since_epoch(now));
    assert(match name {
        Some(name) => wallet_name_after(nanos_after_epoch(now)) == Some(name@),
        None => wallet_name_after(nanos_after_epoch(now)) is None,
    });
    name
}

/// Names a wallet by how long after the epoch the clock was read: by the whole milliseconds, where
/// the reading is not before the epoch, and only there.
pub fn wallet_name_since(elapsed: Result<Duration, SystemTimeError>) -> (name: Option<String>)
    ensures
        match elapsed {
            Ok(elapsed) => name is Some && name->0@ == wallet_name_at(
                nanos_in(elapsed) / 1_000_000,
            ),
            Err(_) => name is None,
        },
{
    match elapsed {
        Ok(elapsed) => Some(wallet_name(elapsed.as_millis())),
        Err(_) => None,
    }
}

/// Wallets made at different milliseconds have different names.
pub proof fn law_wallet_names_differ(first: nat, second: nat)
    requires
        first != second,
    ensures
        wallet_name_at(first) != wallet_name_at(second),
{
    lemma_decimal_round_trip(first);
    lemma_decimal_round_trip(second);
    let prefix = "lpk-opener-"@;
    if wallet_name_at(first) == wallet_name_at(second) {
        assert(wallet_name_at(first).skip(prefix.len() as int) =~= decimal(first));
        assert(wallet_name_at(second).skip(prefix.len() as int) =~= decimal(second));
    }
}

/// Two readings of the clock give the same name exactly when they fall in the same millisecond after
/// the epoch.
pub proof fn law_same_name_within_a_millisecond(first: int, second: int)
    requires
        first >= 0,
        second >= 0,
    ensures
        wallet_name_after(first) == wallet_name_after(second) <==> first / 1_000_000 == second
            / 1_000_000,
{
    if first / 1_000_000 != second / 1_000_000 {
        law_wallet_names_differ((first / 1_000_000) as nat, (second / 1_000_000) as nat);
    }
}

/// A name ends in one or more digits behind a fixed beginning, and so it holds no slash.
pub proof fn law_names_hold_no_slash(millis: nat)
    ensures
        decimal(millis).len() > 0,
        all_digits(decimal(millis)),
        !wallet_name_at(millis).contains('/'),
{
    lemma_decimal_round_trip(millis);
    reveal_strlit("lpk-opener-");
    let prefix = "lpk-opener-"@;
    let name = wallet_name_at(millis);
    assert forall|i: int| 0 <= i < name.len() implies name[i] != '/' by {
        if i >= prefix.len() {
            assert(is_digit(decimal(millis)[i - prefix.len()]));
        }
    }
}

/// A URL without the slashes that end it.
pub open spec fn without_trailing_slashes(url: Seq<char>) -> Seq<char>
    decreases url.len(),
{
    if url.len() > 0 && url.last() == '/' {
        without_trailing_slashes(url.drop_last())
    } else {
        url
    }
}

/// The URL of a wallet of the node at `rpc_url`.
pub open spec fn wallet_url_of(rpc_url: Seq<char>, name: Seq<char>) -> Seq<char> {
    without_trailing_slashes(rpc_url) + "/wallet/"@ + name
}

/// Makes the URL of a wallet of the node at `rpc_url`.
pub fn wallet_url(rpc_url: &str, name: &str) -> (url: String)
    ensures
        url@ == wallet_url_of(rpc_url@, name@),
{
    let mut end: usize = rpc_url.unicode_len();
    assert(rpc_url@.take(end as int) =~= rpc_url@);
    while end > 0 && rpc_url.get_char(end - 1) == '/'
        invariant
            end <= rpc_url@.len(),
            without_trailing_slashes(rpc_url@) == without_trailing_slashes(
                rpc_url@.take(end as int),
            ),
        decreases end,
    {
        assert(rpc_url@.take(end as int).drop_last() =~= rpc_url@.take(end - 1));
        end = end - 1;
    }
    let base = rpc_url.substring_char(0, end);
    assert(base@ =~= rpc_url@.take(end as int));
    let mut url = joined(base, "/wallet/");
    url.append(name);
    url
}

/// Slashes at the end of the node's URL make no difference to the URL of its wallets.
pub proof fn law_trailing_slashes_do_not_matter(rpc_url: Seq<char>, name: Seq<char>)
    ensures
        wallet_url_of(rpc_url.push('/'), name) == wallet_url_of(rpc_url, name),
{
    assert(rpc_url.push('/').drop_last() =~= rpc_url);
}

/// What is left of a URL without its trailing slashes does not end with one.
pub proof fn law_no_slash_is_left(url: Seq<char>)
    ensures
        without_trailing_slashes(url).len() > 0 ==> without_trailing_slashes(url).last() != '/',
    decreases url.len(),
{
    if url.len() > 0 && url.last() == '/' {
        law_no_slash_is_left(url.drop_last());
    }
}

/// Whether `base` is what is left of a URL when the slashes that end it are cut off.
pub open spec fn is_base(base: Seq<char>, url: Seq<char>) -> bool {
    &&& base.is_prefix_of(url)
    &&& forall|i: int| base.len() <= i < url.len() ==> #[trigger] url[i] == '/'
    &&& base.len() > 0 ==> base.last() != '/'
}

/// A wallet answers under the node's URL without its trailing slashes, then `/wallet/`, then its
/// name.
pub proof fn law_wallets_answer_under_the_node(
    rpc_url: Seq<char>,
    base: Seq<char>,
    name: Seq<char>,
)
    requires
        is_base(base, rpc_url),
    ensures
        wallet_url_of(rpc_url, name) == base + "/wallet/"@ + name,
{
    lemma_base(rpc_url, base);
}

proof fn lemma_base(url: Seq<char>, base: Seq<char>)
    requires
        is_base(base, url),
    ensures
        without_trailing_slashes(url) == base,
    decreases url.len(),
{
    if url.len() > base.len() {
        assert(url[url.len() - 1] == '/');
        assert(base.is_prefix_of(url.drop_last())) by {
            assert(url.drop_last().subrange(0, base.len() as int) =~= url.subrange(
                0,
                base.len() as int,
            ));
        }
        lemma_base(url.drop_last(), base);
    } else {
        assert(base =~= url);
    }
}

/// Every URL has such a base.
pub proof fn law_every_url_has_a_base(url: Seq<char>)
    ensures
        is_base(without_trailing_slashes(url), url),
    decreases url.len(),
{
    if url.len() > 0 && url.last() == '/' {
        let shorter = url.drop_last();
        law_every_url_has_a_base(shorter);
        let base = without_trailing_slashes(shorter);
        assert(base =~= url.subrange(0, base.len() as int));
        assert forall|i: int| base.len() <= i < url.len() implies #[trigger] url[i] == '/' by {
            if i < shorter.len() {
                assert(shorter[i] == url[i]);
            }
        }
    } else {
        assert(url =~= url.subrange(0, url.len() as int));
    }
}

/// A name is the fixed beginning and the number of milliseconds in decimal.
pub proof fn law_names_count_milliseconds(nanos: nat)
    ensures
        wallet_name_after(nanos as int) == Some("lpk-opener-"@ + decimal(nanos / 1_000_000)),
        wallet_name_after(-1 - nanos) is None,
{
}

} // verus!
