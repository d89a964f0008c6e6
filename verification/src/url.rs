//! What holds of every URL that a configuration stands for.

use crate::args::{resolve, ConfigView, Vars, LOOPBACK_ADDRESS, LOOPBACK_NAME};
use crate::decimal::{
    all_digits, decimal, digits_value, is_digit, lemma_decimal_injective, lemma_decimal_is_digits,
    lemma_decimal_value,
};
use vstd::prelude::*;

verus! {

/// Whether `url` is written the way a probe's URL is: `http` or `https`,
/// then `://`, one of the two hosts, `:`, a port in digits, and a path that
/// begins with `/`.
pub open spec fn is_probe_url(url: Seq<char>) -> bool {
    exists|scheme: Seq<char>, host: Seq<char>, port: Seq<char>, path: Seq<char>|
        {
            &&& scheme == "http"@ || scheme == "https"@
            &&& host == LOOPBACK_NAME@ || host == LOOPBACK_ADDRESS@
            &&& port.len() > 0 && all_digits(port) && digits_value(port) <= u16::MAX
            &&& path.len() > 0 && path[0] == '/'
            &&& url == scheme + "://"@ + host + ":"@ + port + path
        }
}

/// The URL of a well-formed configuration is written as a URL.
pub proof fn lemma_url_is_well_written(config: ConfigView)
    requires
        config.wf(),
    ensures
        is_probe_url(config.url()),
{
    let port = decimal(config.port as nat);
    lemma_decimal_is_digits(config.port as nat);
    lemma_decimal_value(config.port as nat);
    assert({
        &&& config.scheme.text() == "http"@ || config.scheme.text() == "https"@
        &&& config.host() == LOOPBACK_NAME@ || config.host() == LOOPBACK_ADDRESS@
        &&& port.len() > 0 && all_digits(port) && digits_value(port) <= u16::MAX
        &&& config.path.len() > 0 && config.path[0] == '/'
        &&& config.url() == config.scheme.text() + "://"@ + config.host() + ":"@ + port
            + config.path
    });
}

/// Whatever the environment holds, the URL of a configuration made from it
/// is written as a URL.
pub proof fn lemma_resolved_url_is_well_written(argc: nat, vars: Vars)
    requires
        resolve(argc, vars) is Ok,
    ensures
        is_probe_url(resolve(argc, vars)->Ok_0.url()),
{
    lemma_url_is_well_written(resolve(argc, vars)->Ok_0);
}

/// Two runs of digits, each followed by something that begins with `/`, are
/// the same run if the two texts are the same.
proof fn lemma_digits_then_slash(a: Seq<char>, p: Seq<char>, b: Seq<char>, q: Seq<char>)
    requires
        all_digits(a),
        all_digits(b),
        p.len() > 0 && p[0] == '/',
        q.len() > 0 && q[0] == '/',
        a + p == b + q,
    ensures
        a == b,
        p == q,
{
    let text = a + p;
    if a.len() < b.len() {
        assert(text[a.len() as int] == p[0]);
        assert(text[a.len() as int] == b[a.len() as int]);
        assert(is_digit(b[a.len() as int]));
    } else if b.len() < a.len() {
        assert(text[b.len() as int] == q[0]);
        assert(text[b.len() as int] == a[b.len() as int]);
        assert(is_digit(a[b.len() as int]));
    }
    assert(a.len() == b.len());
    assert(a =~= text.subrange(0, a.len() as int));
    assert(b =~= text.subrange(0, a.len() as int));
    assert(p =~= text.subrange(a.len() as int, text.len() as int));
    assert(q =~= text.subrange(a.len() as int, text.len() as int));
}

/// Two texts that are the same after a common beginning are the same.
proof fn lemma_same_after_prefix(prefix: Seq<char>, a: Seq<char>, b: Seq<char>)
    requires
        prefix + a == prefix + b,
    ensures
        a == b,
{
    assert(a =~= (prefix + a).subrange(prefix.len() as int, (prefix + a).len() as int));
    assert(b =~= (prefix + b).subrange(prefix.len() as int, (prefix + b).len() as int));
}

/// The URL says all that went into it: two well-formed configurations have
/// the same URL if and only if they agree in scheme, host, port and path.
pub proof fn lemma_url_tells_its_parts(a: ConfigView, b: ConfigView)
    requires
        a.wf(),
        b.wf(),
    ensures
        a.url() == b.url() <==> {
            &&& a.scheme == b.scheme
            &&& a.use_loopback_addr == b.use_loopback_addr
            &&& a.port == b.port
            &&& a.path == b.path
        },
{
    if a.url() == b.url() {
        reveal_strlit("http");
        reveal_strlit("https");
        reveal_strlit("://");
        reveal_strlit(":");
        reveal_strlit("localhost");
        reveal_strlit("127.0.0.1");
        let da = decimal(a.port as nat);
        let db = decimal(b.port as nat);
        lemma_decimal_is_digits(a.port as nat);
        lemma_decimal_is_digits(b.port as nat);
        let ta = da + a.path;
        let tb = db + b.path;
        let ha = a.scheme.text() + "://"@ + a.host() + ":"@;
        let hb = b.scheme.text() + "://"@ + b.host() + ":"@;
        assert(a.url() =~= ha + ta);
        assert(b.url() =~= hb + tb);
        if a.scheme != b.scheme {
            assert((ha + ta)[4] != (hb + tb)[4]);
        }
        let lead = a.scheme.text().len() as int + 3;
        if a.use_loopback_addr != b.use_loopback_addr {
            assert((ha + ta)[lead] != (hb + tb)[lead]);
        }
        assert(ha == hb);
        lemma_same_after_prefix(ha, ta, tb);
        lemma_digits_then_slash(da, a.path, db, b.path);
        lemma_decimal_injective(a.port as nat, b.port as nat);
    }
}

} // verus!
