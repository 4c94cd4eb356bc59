//! Endpoint URLs.

use vstd::prelude::*;
use vstd::string::{StrSliceExecFns, StringExecFns};

use crate::status::{StatusCode, BAD_TCP_ENDPOINT_URL_INVALID};

verus! {

/// The port of an OPC UA server whose URL names none.
pub const DEFAULT_OPC_UA_SERVER_PORT: u16 = 4840;

/// What `is_opc_ua_binary_url` of `opcua_core` says of a URL: whether it parses and its scheme
/// is `opc.tcp`.
pub uninterp spec fn binary_url(url: Seq<char>) -> bool;

/// What `hostname_port_from_url` of `opcua_core` finds in a URL: the host, and the port or the
/// default port, if it parses, its scheme is `opc.tcp` and it has a host.
pub uninterp spec fn host_and_port(url: Seq<char>, default_port: u16) -> Option<(Seq<char>, u16)>;

/// Calls `opcua_core::comms::url::is_opc_ua_binary_url`.
///
/// The contract gives the result its name.
#[verifier::external_body]
pub(crate) fn is_opc_ua_binary_url(url: &str) -> (res: bool)
    ensures
        res == binary_url(url@),
{
    opcua_core::comms::url::is_opc_ua_binary_url(url)
}

/// Calls `opcua_core::comms::url::hostname_port_from_url`.
///
/// The contract gives the result its name and claims the one status with which it fails.
#[verifier::external_body]
pub(crate) fn hostname_port_from_url(url: &str, default_port: u16) -> (res: Result<
    (String, u16),
    StatusCode,
>)
    ensures
        match res {
            Ok(found) => host_and_port(url@, default_port) == Some((found.0@, found.1)),
            Err(status) => host_and_port(url@, default_port) is None && status == StatusCode(
                BAD_TCP_ENDPOINT_URL_INVALID,
            ),
        },
{
    opcua_core::comms::url::hostname_port_from_url(url, default_port).map_err(
        |status| StatusCode(status.bits()),
    )
}

/// A URL without the slashes at its end.
pub open spec fn without_trailing_slashes(url: Seq<char>) -> Seq<char>
    decreases url.len(),
{
    if url.len() > 0 && url.last() == '/' {
        without_trailing_slashes(url.drop_last())
    } else {
        url
    }
}

/// Two URLs are the same but for slashes at their ends.
pub open spec fn same_but_for_trailing_slashes(a: Seq<char>, b: Seq<char>) -> bool {
    without_trailing_slashes(a) == without_trailing_slashes(b)
}

/// Strip all slashes from the end of a URL.
pub fn trim_trailing_slashes(url: &str) -> (res: &str)
    ensures
        res@ == without_trailing_slashes(url@),
{
    let mut len: usize = url.unicode_len();
    proof {
        assert(url@.take(len as int) =~= url@);
    }
    while len > 0 && url.get_char(len - 1) == '/'
        invariant
            len <= url@.len(),
            without_trailing_slashes(url@.take(len as int)) == without_trailing_slashes(url@),
        decreases len,
    {
        proof {
            assert(url@.take(len as int).drop_last() =~= url@.take(len - 1));
        }
        len = len - 1;
    }
    let res = url.substring_char(0, len);
    res
}

/// The decimal digits of a number.
pub open spec fn decimal(n: nat) -> Seq<char>
    decreases n,
{
    if n < 10 {
        seq![digit(n)]
    } else {
        decimal(n / 10).push(digit(n % 10))
    }
}

/// The digit that stands for a number below ten.
pub open spec fn digit(n: nat) -> char {
    ('0' as u32 + n) as char
}

/// The host and port as they are looked up: `host:port`.
pub open spec fn socket_address(host: Seq<char>, port: u16) -> Seq<char> {
    host.push(':') + decimal(port as nat)
}

/// The digit that stands for a number below ten, as a string.
fn digit_str(n: u16) -> (res: &'static str)
    requires
        n < 10,
    ensures
        res@ == seq![digit(n as nat)],
{
    proof {
        reveal_strlit("0");
        reveal_strlit("1");
        reveal_strlit("2");
        reveal_strlit("3");
        reveal_strlit("4");
        reveal_strlit("5");
        reveal_strlit("6");
        reveal_strlit("7");
        reveal_strlit("8");
        reveal_strlit("9");
    }
    match n {
        0 => "0",
        1 => "1",
        2 => "2",
        3 => "3",
        4 => "4",
        5 => "5",
        6 => "6",
        7 => "7",
        8 => "8",
        _ => "9",
    }
}

/// Append the decimal digits of a number.
fn append_decimal(text: &mut String, n: u16)
    ensures
        final(text)@ == old(text)@ + decimal(n as nat),
    decreases n,
{
    if n >= 10 {
        append_decimal(text, n / 10);
    }
    text.append(digit_str(n % 10));
}

/// Write a host and port the way they are looked up.
pub fn format_address(host: &str, port: u16) -> (res: String)
    ensures
        res@ == socket_address(host@, port),
{
    proof {
        reveal_strlit(":");
    }
    let mut address = host.to_owned();
    address.append(":");
    append_decimal(&mut address, port);
    address
}

/// The address to look up for an endpoint URL, with the default port where it names none.
pub fn address_from_url(endpoint_url: &str) -> (res: Result<String, StatusCode>)
    ensures
        match (res, host_and_port(endpoint_url@, DEFAULT_OPC_UA_SERVER_PORT)) {
            (Ok(address), Some((host, port))) => address@ == socket_address(host, port),
            (Err(status), None) => status == StatusCode(BAD_TCP_ENDPOINT_URL_INVALID),
            _ => false,
        },
{
    match hostname_port_from_url(endpoint_url, DEFAULT_OPC_UA_SERVER_PORT) {
        Ok((host, port)) => Ok(format_address(host.as_str(), port)),
        Err(status) => Err(status),
    }
}

/// Slashes at the end of a URL make no difference to the comparison.
pub proof fn law_trailing_slash_is_ignored(url: Seq<char>)
    ensures
        same_but_for_trailing_slashes(url.push('/'), url),
{
    assert(url.push('/').drop_last() =~= url);
}

/// Stripping slashes a second time changes nothing, and what is left ends in no slash.
pub proof fn law_stripping_is_complete(url: Seq<char>)
    ensures
        without_trailing_slashes(without_trailing_slashes(url)) == without_trailing_slashes(url),
        without_trailing_slashes(url).len() > 0 ==> without_trailing_slashes(url).last() != '/',
    decreases url.len(),
{
    if url.len() > 0 && url.last() == '/' {
        law_stripping_is_complete(url.drop_last());
    }
}

/// Stripping takes slashes from the end of a URL and nothing else, and it takes all of them.
pub proof fn law_stripping_takes_only_slashes(url: Seq<char>)
    ensures
        ({
            let rest = without_trailing_slashes(url);
            &&& rest.len() <= url.len()
            &&& rest == url.take(rest.len() as int)
            &&& forall|i: int| rest.len() <= i < url.len() ==> #[trigger] url[i] == '/'
            &&& rest.len() > 0 ==> rest[rest.len() - 1] != '/'
        }),
    decreases url.len(),
{
    if url.len() > 0 && url.last() == '/' {
        let shorter = url.drop_last();
        law_stripping_takes_only_slashes(shorter);
        let rest = without_trailing_slashes(url);
        assert(shorter.take(rest.len() as int) =~= url.take(rest.len() as int));
        assert forall|i: int| rest.len() <= i < url.len() implies #[trigger] url[i] == '/' by {
            if i < shorter.len() {
                assert(shorter[i] == url[i]);
            }
        }
    } else {
        assert(url.take(url.len() as int) =~= url);
    }
}

/// A row of slashes.
pub open spec fn slashes(count: nat) -> Seq<char> {
    Seq::new(count, |i: int| '/')
}

/// Two URLs that count as the same are the same characters, `s`, followed by `m` slashes in one
/// and by `n` slashes in the other.
pub proof fn law_same_urls_differ_only_in_slashes(a: Seq<char>, b: Seq<char>) -> (res: (
    Seq<char>,
    nat,
    nat,
))
    requires
        same_but_for_trailing_slashes(a, b),
    ensures
        ({
            let (s, m, n) = res;
            &&& a == s + slashes(m)
            &&& b == s + slashes(n)
        }),
        a.len() > 0 && b.len() > 0 && a[a.len() - 1] != '/' && b[b.len() - 1] != '/' ==> a == b,
{
    law_stripping_takes_only_slashes(a);
    law_stripping_takes_only_slashes(b);
    let s = without_trailing_slashes(a);
    let m = (a.len() - s.len()) as nat;
    let n = (b.len() - s.len()) as nat;
    assert(a =~= s + slashes(m));
    assert(b =~= s + slashes(n));
    (s, m, n)
}

/// The same characters followed by any number of slashes count as the same URL.
pub proof fn law_any_number_of_slashes_is_ignored(s: Seq<char>, m: nat, n: nat)
    ensures
        same_but_for_trailing_slashes(s + slashes(m), s + slashes(n)),
{
    lemma_slashes_are_stripped(s, m);
    lemma_slashes_are_stripped(s, n);
}

/// Slashes at the end are stripped one by one.
proof fn lemma_slashes_are_stripped(s: Seq<char>, m: nat)
    ensures
        without_trailing_slashes(s + slashes(m)) == without_trailing_slashes(s),
    decreases m,
{
    if m == 0 {
        assert(s + slashes(m) =~= s);
    } else {
        lemma_slashes_are_stripped(s, (m - 1) as nat);
        assert((s + slashes(m)).drop_last() =~= s + slashes((m - 1) as nat));
    }
}

/// The number that a row of decimal digits stands for.
pub open spec fn read_decimal(digits: Seq<char>) -> int
    decreases digits.len(),
{
    if digits.len() == 0 {
        0
    } else {
        10 * read_decimal(digits.drop_last()) + (digits.last() as int - '0' as int)
    }
}

/// A number is written in digits alone, without a zero in front, and reads as the same number.
pub proof fn law_numbers_read_back(n: nat)
    ensures
        read_decimal(decimal(n)) == n,
        decimal(n).len() > 0,
        forall|i: int| 0 <= i < decimal(n).len() ==> '0' <= #[trigger] decimal(n)[i] <= '9',
        n > 0 ==> decimal(n)[0] != '0',
    decreases n,
{
    if n < 10 {
        assert(decimal(n).drop_last() =~= Seq::empty());
        assert(read_decimal(Seq::empty()) == 0);
    } else {
        law_numbers_read_back(n / 10);
        assert(decimal(n).drop_last() =~= decimal(n / 10));
    }
}

/// An address is the host, a colon and the port in digits, and nothing else.
pub proof fn law_address_names_host_and_port(host: Seq<char>, port: u16)
    ensures
        ({
            let address = socket_address(host, port);
            &&& address.len() > host.len() + 1
            &&& address.take(host.len() as int) == host
            &&& address[host.len() as int] == ':'
            &&& read_decimal(address.skip((host.len() + 1) as int)) == port
            &&& forall|i: int|
                host.len() < i < address.len() ==> '0' <= #[trigger] address[i] <= '9'
        }),
{
    let address = socket_address(host, port);
    let digits = decimal(port as nat);
    law_numbers_read_back(port as nat);
    assert(address.take(host.len() as int) =~= host);
    assert(address.skip((host.len() + 1) as int) =~= digits);
    assert forall|i: int| host.len() < i < address.len() implies '0' <= #[trigger] address[i]
        <= '9' by {
        assert(address[i] == digits[i - host.len() - 1]);
    }
}

/// Trimming a URL takes all slashes from its end and nothing else.
pub proof fn law_trimming_takes_only_slashes(url: &str, res: &str)
    requires
        call_ensures(trim_trailing_slashes, (url,), res),
    ensures
        res@.len() <= url@.len(),
        res@ == url@.take(res@.len() as int),
        forall|i: int| res@.len() <= i < url@.len() ==> #[trigger] url@[i] == '/',
        res@.len() > 0 ==> res@[res@.len() - 1] != '/',
{
    law_stripping_takes_only_slashes(url@);
}

/// The address to look up for a URL is the host that the URL names, a colon and, in digits, the
/// port that it names or 4840. A URL that names no host is invalid.
pub proof fn law_address_is_that_of_the_url(url: &str, res: Result<String, StatusCode>)
    requires
        call_ensures(address_from_url, (url,), res),
    ensures
        host_and_port(url@, 4840) matches Some((host, port)) ==> (res matches Ok(address) && {
            &&& address@.len() > host.len() + 1
            &&& address@.take(host.len() as int) == host
            &&& address@[host.len() as int] == ':'
            &&& read_decimal(address@.skip((host.len() + 1) as int)) == port
        }),
        host_and_port(url@, 4840) is None ==> (res matches Err(status) && status.0
            == BAD_TCP_ENDPOINT_URL_INVALID),
{
    if let Some((host, port)) = host_and_port(url@, 4840) {
        law_address_names_host_and_port(host, port);
    }
}

/// A host and a port are written as the host, a colon and the port in digits.
pub proof fn law_address_is_written_as_host_and_port(host: &str, port: u16, res: String)
    requires
        call_ensures(format_address, (host, port), res),
    ensures
        res@.len() > host@.len() + 1,
        res@.take(host@.len() as int) == host@,
        res@[host@.len() as int] == ':',
        read_decimal(res@.skip((host@.len() + 1) as int)) == port,
        forall|i: int| host@.len() < i < res@.len() ==> '0' <= #[trigger] res@[i] <= '9',
{
    law_address_names_host_and_port(host@, port);
}

} // verus!
