//! Which pages may open a WebSocket: those of the server itself.

use vstd::prelude::*;
use vstd::slice::slice_subrange;

use super::server::StatusCode;

verus! {

/// The bytes of a text.
pub open spec fn bytes(text: Seq<char>) -> Seq<u8> {
    vstd::utf8::encode_utf8(text)
}

/// Whether a header value can be read as text: it holds visible ASCII characters, spaces and
/// tabs only.
pub open spec fn readable(value: Seq<u8>) -> bool {
    forall|i: int| 0 <= i < value.len() ==> 32 <= #[trigger] value[i] <= 126 || value[i] == 9
}

/// An origin without its scheme.
pub open spec fn without_scheme(origin: Seq<u8>) -> Seq<u8> {
    if bytes("http://"@).is_prefix_of(origin) {
        origin.skip(bytes("http://"@).len() as int)
    } else if bytes("https://"@).is_prefix_of(origin) {
        origin.skip(bytes("https://"@).len() as int)
    } else {
        origin
    }
}

/// How long the name in a host is: to the first colon.
pub open spec fn name_len(host: Seq<u8>) -> int {
    match host.index_of_first(58u8) {
        Some(colon) => colon,
        None => host.len() as int,
    }
}

/// The name in a host.
pub open spec fn hostname(host: Seq<u8>) -> Seq<u8> {
    host.take(name_len(host))
}

/// What follows the name in a host: a colon and the port, or nothing.
pub open spec fn after_name(host: Seq<u8>) -> Seq<u8> {
    host.skip(name_len(host))
}

/// Whether a name stands for the machine itself. An address in brackets does not, since it is
/// not one name before a colon.
pub open spec fn local(name: Seq<u8>) -> bool {
    ||| name == bytes("localhost"@)
    ||| name == bytes("127.0.0.1"@)
    ||| name == bytes("0.0.0.0"@)
}

/// Whether a request with these headers may open a WebSocket.
///
/// A client that names no origin is no browser, and may. A browser may from a page of the
/// host that it asks. Two names of the machine itself are the same host where the ports are
/// the same.
pub open spec fn admissible(origin: Option<Seq<u8>>, host: Option<Seq<u8>>) -> bool {
    match origin {
        None => true,
        Some(o) => match host {
            None => false,
            Some(h) => {
                &&& readable(o)
                &&& readable(h)
                &&& without_scheme(o) == h || (local(hostname(without_scheme(o))) && local(
                    hostname(h),
                ) && after_name(without_scheme(o)) == after_name(h))
            },
        },
    }
}

/// The value of a header, where the request has it.
pub open spec fn value_of(header: Option<&[u8]>) -> Option<Seq<u8>> {
    match header {
        Some(value) => Some(value@),
        None => None,
    }
}

/// Whether a header value can be read as text.
fn is_readable(value: &[u8]) -> (b: bool)
    ensures
        b == readable(value@),
{
    let mut i: usize = 0;
    while i < value.len()
        invariant
            i <= value@.len(),
            forall|j: int|
                0 <= j < i ==> 32 <= #[trigger] value@[j] <= 126 || value@[j] == 9,
        decreases value@.len() - i,
    {
        let b: u8 = value[i];
        if !(32 <= b && b <= 126 || b == 9) {
            return false;
        }
        i += 1;
    }
    true
}

/// Whether two rows of bytes are the same.
fn same(a: &[u8], b: &[u8]) -> (r: bool)
    ensures
        r == (a@ == b@),
{
    if a.len() != b.len() {
        return false;
    }
    let mut i: usize = 0;
    while i < a.len()
        invariant
            i <= a@.len(),
            a@.len() == b@.len(),
            forall|j: int| 0 <= j < i ==> a@[j] == b@[j],
        decreases a@.len() - i,
    {
        if a[i] != b[i] {
            return false;
        }
        i += 1;
    }
    assert(a@ =~= b@);
    true
}

/// What follows a prefix, where a row of bytes starts with it.
fn after_prefix<'a>(value: &'a [u8], prefix: &[u8]) -> (rest: Option<&'a [u8]>)
    ensures
        match rest {
            Some(r) => prefix@.is_prefix_of(value@) && r@ == value@.skip(prefix@.len() as int),
            None => !prefix@.is_prefix_of(value@),
        },
{
    if value.len() < prefix.len() {
        return None;
    }
    let head = slice_subrange(value, 0, prefix.len());
    if same(head, prefix) {
        Some(slice_subrange(value, prefix.len(), value.len()))
    } else {
        None
    }
}

/// An origin without its scheme.
fn strip_scheme<'a>(origin: &'a [u8]) -> (rest: &'a [u8])
    ensures
        rest@ == without_scheme(origin@),
{
    match after_prefix(origin, "http://".as_bytes()) {
        Some(rest) => rest,
        None => match after_prefix(origin, "https://".as_bytes()) {
            Some(rest) => rest,
            None => origin,
        },
    }
}

/// How long the name in a host is.
fn find_name_end(host: &[u8]) -> (n: usize)
    ensures
        n == name_len(host@),
        n <= host@.len(),
{
    proof {
        host@.index_of_first_ensures(58u8);
    }
    let mut i: usize = 0;
    while i < host.len()
        invariant
            i <= host@.len(),
            forall|j: int| 0 <= j < i ==> host@[j] != 58u8,
            match host@.index_of_first(58u8) {
                Some(index) => {
                    &&& 0 <= index < host@.len()
                    &&& host@[index] == 58u8
                    &&& forall|j: int| 0 <= j < index ==> host@[j] != 58u8
                },
                None => !host@.contains(58u8),
            },
        decreases host@.len() - i,
    {
        if host[i] == 58u8 {
            assert(host@.index_of_first(58u8) == Some(i as int));
            return i;
        }
        i += 1;
    }
    host.len()
}

/// Whether two hosts are names of the machine itself with the same port.
fn same_machine(a: &[u8], b: &[u8]) -> (r: bool)
    ensures
        r == (local(hostname(a@)) && local(hostname(b@)) && after_name(a@) == after_name(b@)),
{
    let n: usize = find_name_end(a);
    let m: usize = find_name_end(b);
    is_local(slice_subrange(a, 0, n)) && is_local(slice_subrange(b, 0, m)) && same(
        slice_subrange(a, n, a.len()),
        slice_subrange(b, m, b.len()),
    )
}

/// Whether a name stands for the machine itself.
fn is_local(name: &[u8]) -> (b: bool)
    ensures
        b == local(name@),
{
    same(name, "localhost".as_bytes()) || same(name, "127.0.0.1".as_bytes()) || same(
        name,
        "0.0.0.0".as_bytes(),
    )
}

/// Lets a request for a WebSocket pass by its `Origin` and `Host` headers, or answers it with
/// 403.
pub fn validate_origin(origin: Option<&[u8]>, host: Option<&[u8]>) -> (r: Result<(), StatusCode>)
    ensures
        r == if admissible(value_of(origin), value_of(host)) {
            Ok(())
        } else {
            Err::<(), StatusCode>(StatusCode::Forbidden)
        },
        origin is None ==> r is Ok,
        origin is Some && host is None ==> r is Err,
        r is Err ==> r->Err_0 == StatusCode::Forbidden,
        origin is Some && host is Some ==> (r is Ok <==> admissible(
            Some(origin->0@),
            Some(host->0@),
        )),
{
    let origin: &[u8] = match origin {
        Some(o) => o,
        None => {
            return Ok(());
        },
    };
    if !is_readable(origin) {
        return Err(StatusCode::Forbidden);
    }
    let host: &[u8] = match host {
        Some(h) => h,
        None => {
            return Err(StatusCode::Forbidden);
        },
    };
    if !is_readable(host) {
        return Err(StatusCode::Forbidden);
    }
    let origin_host = strip_scheme(origin);
    if same(origin_host, host) {
        return Ok(());
    }
    if same_machine(origin_host, host) {
        Ok(())
    } else {
        Err(StatusCode::Forbidden)
    }
}

/// A page of the server itself may always open a WebSocket, over either scheme.
pub proof fn lemma_same_origin_admitted(host: Seq<u8>)
    requires
        forall|i: int| 0 <= i < host.len() ==> 32 <= #[trigger] host[i] <= 126 || host[i] == 9,
    ensures
        admissible(Some(bytes("http://"@) + host), Some(host)),
        admissible(Some(bytes("https://"@) + host), Some(host)),
{
    reveal_strlit("http://");
    reveal_strlit("https://");
    vstd::utf8::is_ascii_chars_encode_utf8("http://"@);
    vstd::utf8::is_ascii_chars_encode_utf8("https://"@);
    let http = bytes("http://"@);
    let https = bytes("https://"@);
    assert((http + host).take(7) =~= http);
    assert((http + host).skip(7) =~= host);
    assert((https + host).take(8) =~= https);
    assert((https + host).skip(8) =~= host);
    assert((https + host)[4] == https[4] && https[4] != http[4]);
    assert(!http.is_prefix_of(https + host)) by {
        if http.is_prefix_of(https + host) {
            assert((https + host).take(7)[4] == http[4]);
        }
    }
}

/// A host without a scheme is its own origin too, and a client that names no origin is let in.
/// An origin without a host is not.
pub proof fn lemma_bare_host_admitted(host: Seq<u8>, asked: Option<Seq<u8>>)
    requires
        forall|i: int| 0 <= i < host.len() ==> 32 <= #[trigger] host[i] <= 126 || host[i] == 9,
        !bytes("http://"@).is_prefix_of(host),
        !bytes("https://"@).is_prefix_of(host),
    ensures
        admissible(Some(host), Some(host)),
        admissible(None, asked),
        !admissible(Some(host), None),
{
}

/// A name of the machine itself.
pub open spec fn machine_name(name: Seq<char>) -> bool {
    name == "localhost"@ || name == "127.0.0.1"@ || name == "0.0.0.0"@
}

/// A scheme that a browser puts before a host, or none.
pub open spec fn scheme_prefix(scheme: Seq<char>) -> bool {
    scheme == "http://"@ || scheme == "https://"@ || scheme.len() == 0
}

/// An origin is a scheme, or none, and the host itself.
pub open spec fn names_host(origin: Seq<u8>, host: Seq<u8>, scheme: Seq<char>) -> bool {
    scheme_prefix(scheme) && origin == vstd::utf8::encode_utf8(scheme) + host
}

/// An origin is a scheme, or none, and a name of the machine, and the host another such name,
/// with the same port or none behind both.
pub open spec fn names_machine(
    origin: Seq<u8>,
    host: Seq<u8>,
    scheme: Seq<char>,
    a: Seq<char>,
    b: Seq<char>,
    port: Seq<u8>,
) -> bool {
    &&& scheme_prefix(scheme)
    &&& machine_name(a)
    &&& machine_name(b)
    &&& origin == vstd::utf8::encode_utf8(scheme) + (vstd::utf8::encode_utf8(a) + port)
    &&& host == vstd::utf8::encode_utf8(b) + port
    &&& port.len() > 0 ==> port[0] == 58
}

/// Whoever is let in has an origin that is a scheme, or none, before the very host that it asks;
/// or before another name of the machine with the same port.
pub proof fn lemma_admitted_is_same_host(origin: Seq<u8>, host: Seq<u8>)
    requires
        admissible(Some(origin), Some(host)),
    ensures
        forall|i: int|
            0 <= i < origin.len() ==> 32 <= #[trigger] origin[i] <= 126 || origin[i] == 9,
        forall|i: int| 0 <= i < host.len() ==> 32 <= #[trigger] host[i] <= 126 || host[i] == 9,
        (exists|scheme: Seq<char>| #[trigger] names_host(origin, host, scheme)) || (exists|
            scheme: Seq<char>,
            a: Seq<char>,
            b: Seq<char>,
            port: Seq<u8>,
        | #[trigger]
            names_machine(origin, host, scheme, a, b, port)),
{
    let bare = without_scheme(origin);
    let scheme = scheme_of(origin);
    lemma_scheme_and_bare(origin);
    if bare == host {
        assert(names_host(origin, host, scheme));
    } else {
        let port = after_name(bare);
        let a = named(hostname(bare));
        let b = named(hostname(host));
        lemma_name_and_rest(bare);
        lemma_name_and_rest(host);
        assert(names_machine(origin, host, scheme, a, b, port));
    }
}

/// The scheme that is stripped from an origin.
spec fn scheme_of(origin: Seq<u8>) -> Seq<char> {
    if bytes("http://"@).is_prefix_of(origin) {
        "http://"@
    } else if bytes("https://"@).is_prefix_of(origin) {
        "https://"@
    } else {
        Seq::<char>::empty()
    }
}

/// An origin is its scheme and what is left without it.
proof fn lemma_scheme_and_bare(origin: Seq<u8>)
    ensures
        scheme_prefix(scheme_of(origin)),
        origin == bytes(scheme_of(origin)) + without_scheme(origin),
{
    let head = bytes(scheme_of(origin));
    let bare = without_scheme(origin);
    assert(vstd::utf8::is_ascii_chars(Seq::<char>::empty()));
    vstd::utf8::is_ascii_chars_encode_utf8(Seq::<char>::empty());
    if bytes("http://"@).is_prefix_of(origin) || bytes("https://"@).is_prefix_of(origin) {
        assert(origin.take(head.len() as int) =~= head);
    }
    assert(origin =~= head + bare);
}

/// A host is its name and what follows, which starts with a colon where there is any.
proof fn lemma_name_and_rest(host: Seq<u8>)
    ensures
        host == hostname(host) + after_name(host),
        after_name(host).len() > 0 ==> after_name(host)[0] == 58,
{
    host.index_of_first_ensures(58u8);
    assert(host =~= hostname(host) + after_name(host));
}

/// The name of the machine that some bytes are.
spec fn named(name: Seq<u8>) -> Seq<char> {
    if name == bytes("localhost"@) {
        "localhost"@
    } else if name == bytes("127.0.0.1"@) {
        "127.0.0.1"@
    } else {
        "0.0.0.0"@
    }
}

/// A page of the machine itself may open a WebSocket under any of its names, if the port is the
/// same.
pub proof fn lemma_machine_names_admitted(a: Seq<char>, b: Seq<char>, port: Seq<u8>)
    requires
        machine_name(a),
        machine_name(b),
        forall|i: int| 0 <= i < port.len() ==> 32 <= #[trigger] port[i] <= 126 || port[i] == 9,
        port.len() > 0 ==> port[0] == 58,
    ensures
        admissible(
            Some(bytes("http://"@) + (bytes(a) + port)),
            Some(bytes(b) + port),
        ),
        admissible(
            Some(bytes("https://"@) + (bytes(a) + port)),
            Some(bytes(b) + port),
        ),
        admissible(Some(bytes(a) + port), Some(bytes(b) + port)),
{
    lemma_name_and_port(a, port);
    lemma_name_and_port(b, port);
    lemma_same_origin_admitted(bytes(a) + port);
    lemma_scheme_is_stripped(bytes(a) + port);
    lemma_no_scheme(a, port);
}

/// A name of the machine does not start as a scheme does.
proof fn lemma_no_scheme(name: Seq<char>, port: Seq<u8>)
    requires
        machine_name(name),
    ensures
        without_scheme(bytes(name) + port) == bytes(name) + port,
{
    reveal_strlit("localhost");
    reveal_strlit("127.0.0.1");
    reveal_strlit("0.0.0.0");
    reveal_strlit("http://");
    reveal_strlit("https://");
    vstd::utf8::is_ascii_chars_encode_utf8(name);
    vstd::utf8::is_ascii_chars_encode_utf8("http://"@);
    vstd::utf8::is_ascii_chars_encode_utf8("https://"@);
    let all = bytes(name) + port;
    assert(all[0] == bytes(name)[0] && bytes(name)[0] == name[0] as u8);
    assert(bytes("http://"@)[0] == 104 && bytes("https://"@)[0] == 104);
    assert(!bytes("http://"@).is_prefix_of(all)) by {
        if bytes("http://"@).is_prefix_of(all) {
            assert(all.take(7)[0] == bytes("http://"@)[0]);
        }
    }
    assert(!bytes("https://"@).is_prefix_of(all)) by {
        if bytes("https://"@).is_prefix_of(all) {
            assert(all.take(8)[0] == bytes("https://"@)[0]);
        }
    }
}

/// A scheme before a host is stripped.
proof fn lemma_scheme_is_stripped(host: Seq<u8>)
    ensures
        without_scheme(bytes("http://"@) + host) == host,
        without_scheme(bytes("https://"@) + host) == host,
{
    reveal_strlit("http://");
    reveal_strlit("https://");
    vstd::utf8::is_ascii_chars_encode_utf8("http://"@);
    vstd::utf8::is_ascii_chars_encode_utf8("https://"@);
    let http = bytes("http://"@);
    let https = bytes("https://"@);
    assert((http + host).take(7) =~= http);
    assert((http + host).skip(7) =~= host);
    assert((https + host).take(8) =~= https);
    assert((https + host).skip(8) =~= host);
    assert((https + host)[4] == https[4] && https[4] != http[4]);
    assert(!http.is_prefix_of(https + host)) by {
        if http.is_prefix_of(https + host) {
            assert((https + host).take(7)[4] == http[4]);
        }
    }
}

/// A name of the machine and a port are told apart again.
proof fn lemma_name_and_port(name: Seq<char>, port: Seq<u8>)
    requires
        machine_name(name),
        readable(port),
        port.len() > 0 ==> port[0] == 58,
    ensures
        readable(bytes(name) + port),
        hostname(bytes(name) + port) == bytes(name),
        after_name(bytes(name) + port) == port,
        local(bytes(name)),
{
    reveal_strlit("localhost");
    reveal_strlit("127.0.0.1");
    reveal_strlit("0.0.0.0");
    vstd::utf8::is_ascii_chars_encode_utf8(name);
    let all = bytes(name) + port;
    all.index_of_first_ensures(58u8);
    let n = bytes(name).len() as int;
    assert forall|i: int| 0 <= i < n implies all[i] != 58u8 && 32 <= all[i] <= 126 by {
        assert(bytes(name)[i] == name[i] as u8);
    }
    if port.len() > 0 {
        assert(all[n] == 58u8);
        assert(all.contains(58u8));
    } else {
        assert(!all.contains(58u8));
    }
    assert(name_len(all) == n);
    assert(all.take(n) =~= bytes(name));
    assert(all.skip(n) =~= port);
}

/// A page of another host may not open a WebSocket, and neither may one of another port,
/// unless both names stand for the machine itself and the ports are the same.
pub proof fn lemma_cross_origin_refused(origin: Seq<u8>, host: Seq<u8>)
    requires
        without_scheme(origin) != host,
        !local(hostname(without_scheme(origin))) || !local(hostname(host)) || after_name(
            without_scheme(origin),
        ) != after_name(host),
    ensures
        !admissible(Some(origin), Some(host)),
{
}

} // verus!
