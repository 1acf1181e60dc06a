//! The request headers that the Zhihu creator API expects.
use vstd::prelude::*;
use reqwest::header::{HeaderMap, HeaderValue, InvalidHeaderValue};
use vstd::string::StringSliceAdditionalSpecFns;

verus! {

#[verifier::external_type_specification]
#[verifier::external_body]
#[verifier::reject_recursive_types(T)]
pub struct ExHeaderMap<T>(HeaderMap<T>);

#[verifier::external_type_specification]
#[verifier::external_body]
pub struct ExHeaderValue(HeaderValue);

#[verifier::external_type_specification]
#[verifier::external_body]
pub struct ExInvalidHeaderValue(InvalidHeaderValue);

/// What a header map holds: for each header name, its values in order.
pub uninterp spec fn header_entries(m: HeaderMap<HeaderValue>) -> Map<Seq<char>, Seq<Seq<u8>>>;

/// The bytes a header value holds.
pub uninterp spec fn header_value_bytes(v: HeaderValue) -> Seq<u8>;

/// Whether a byte may stand in a header value built from a string: a
/// visible or non-ASCII byte, or a tab.
pub open spec fn is_header_value_byte(b: u8) -> bool {
    (b >= 32 && b != 127) || b == 9
}

/// Whether every byte of `s` may stand in a header value.
pub open spec fn is_header_value_text(s: Seq<u8>) -> bool {
    forall|i: int| 0 <= i < s.len() ==> is_header_value_byte(#[trigger] s[i])
}

/// Whether a constant header value is made of visible ASCII and tabs only.
pub open spec fn is_visible_ascii_text(s: Seq<char>) -> bool {
    forall|i: int|
        0 <= i < s.len() ==> ((32 <= (#[trigger] s[i]) as u32 && (s[i] as u32) < 127) || s[i]
            == '\t')
}

/// Whether a constant header name is made of lowercase letters, digits and
/// dashes, and is not longer than 64 bytes.
pub open spec fn is_plain_header_name(s: Seq<char>) -> bool {
    &&& 0 < s.len() <= 64
    &&& forall|i: int|
        0 <= i < s.len() ==> ('a' <= #[trigger] s[i] <= 'z' || '0' <= s[i] <= '9' || s[i] == '-')
}

/// `HeaderMap::new`: the new map holds no header.
#[verifier::external_body]
fn header_map_new() -> (m: HeaderMap<HeaderValue>)
    ensures
        header_entries(m).dom().len() == 0,
        header_entries(m).dom().finite(),
{
    HeaderMap::new()
}

/// `HeaderMap::insert` with a constant name: afterwards the name holds the
/// given value alone (a lowercase name is the map's key as it is). The call
/// panics on an invalid name or when the map outgrows its maximal size,
/// which `requires` rules out.
#[verifier::external_body]
fn header_insert(m: &mut HeaderMap<HeaderValue>, name: &'static str, value: HeaderValue)
    requires
        is_plain_header_name(name@),
        header_entries(*old(m)).dom().finite(),
        header_entries(*old(m)).dom().len() < 1024,
    ensures
        header_entries(*final(m)) == header_entries(*old(m)).insert(
            name@,
            seq![header_value_bytes(value)],
        ),
{
    m.insert(name, value);
}

/// `HeaderValue::from_static`: the value holds the string's bytes. It
/// panics on a byte that is not visible ASCII or a tab, which `requires`
/// rules out.
#[verifier::external_body]
fn header_value_static(s: &'static str) -> (v: HeaderValue)
    requires
        is_visible_ascii_text(s@),
    ensures
        header_value_bytes(v) == s.spec_bytes(),
{
    HeaderValue::from_static(s)
}

/// `HeaderValue::from_str`: a value holding the string's bytes when each of
/// them may stand in a header value, an error otherwise.
#[verifier::external_body]
fn header_value_from_str(s: &str) -> (r: Result<HeaderValue, InvalidHeaderValue>)
    ensures
        r is Ok <==> is_header_value_text(s.spec_bytes()),
        r matches Ok(v) ==> header_value_bytes(v) == s.spec_bytes(),
{
    HeaderValue::from_str(s)
}

/// Whether `s` can be sent as a header value.
pub fn is_valid_header_value(s: &str) -> (r: bool)
    ensures
        r == is_header_value_text(s.spec_bytes()),
{
    let bytes = s.as_bytes();
    let mut i: usize = 0;
    while i < bytes.len()
        invariant
            i <= bytes.len(),
            bytes@ == s.spec_bytes(),
            forall|k: int| 0 <= k < i ==> is_header_value_byte(#[trigger] bytes@[k]),
        decreases bytes.len() - i,
    {
        let b = bytes[i];
        if !((b >= 32 && b != 127) || b == 9) {
            return false;
        }
        i = i + 1;
    }
    true
}

/// The headers of a Zhihu creator API request, with the bytes of the
/// user's cookie and `_xsrf` token.
pub open spec fn zhihu_headers(cookie: Seq<u8>, xsrf: Seq<u8>) -> Map<Seq<char>, Seq<Seq<u8>>> {
    Map::<Seq<char>, Seq<Seq<u8>>>::empty()
        .insert("accept"@, seq!["*/*".spec_bytes()])
        .insert("accept-encoding"@, seq!["gzip, deflate, br, zstd".spec_bytes()])
        .insert("accept-language"@, seq!["zh-CN,zh;q=0.9,en-GB;q=0.8,en-US;q=0.7,en;q=0.6".spec_bytes()])
        .insert("cache-control"@, seq!["no-cache".spec_bytes()])
        .insert("content-type"@, seq!["application/json".spec_bytes()])
        .insert("cookie"@, seq![cookie])
        .insert("origin"@, seq!["https://www.zhihu.com".spec_bytes()])
        .insert("pragma"@, seq!["no-cache".spec_bytes()])
        .insert("referer"@, seq!["https://www.zhihu.com/".spec_bytes()])
        .insert("sec-ch-ua"@, seq!["\"Chromium\";v=\"154\", \"Microsoft Edge\";v=\"154\", \"Not A(Brand\";v=\"99\"".spec_bytes()])
        .insert("sec-ch-ua-mobile"@, seq!["?0".spec_bytes()])
        .insert("sec-ch-ua-platform"@, seq!["\"Windows\"".spec_bytes()])
        .insert("sec-fetch-dest"@, seq!["empty".spec_bytes()])
        .insert("sec-fetch-mode"@, seq!["cors".spec_bytes()])
        .insert("sec-fetch-site"@, seq!["same-origin".spec_bytes()])
        .insert("user-agent"@, seq!["Mozilla/5.0 (Windows NT 10.0; Win64; x64) AppleWebKit/537.36 (KHTML, like Gecko) Chrome/154.0.0.0 Safari/537.36".spec_bytes()])
        .insert("x-requested-with"@, seq!["fetch".spec_bytes()])
        .insert("x-xsrftoken"@, seq![xsrf])
        .insert("x-zse-93"@, seq!["101_3_3.0".spec_bytes()])
        .insert("x-zse-96"@, seq!["2.0_bd2PBk+dz2elz2PSCVFrhkolkAZGKrUdb8zk/ih6ozfMdy1mdRsUh15DkD+wbOZQ".spec_bytes()])
        .insert("x-zst-81"@, seq!["3_2.0aR_sn77yn6O92wOB8hPZnQr0EMYxc4f18wNBUgpTQ6nxERFZKLY0-4Lm-h3_tufIwJS8gcxTgJS_AuPZNcXCTwxI78YxEM20s4PGDwN8gGcYAupMWufIeQuK7AFpS6O1vukyQ_R0rRnsyukMGvxBEqeCiRnxEL2ZZrxmDucmqhPXnXFMTAoTF6RhRuLPF0YqtrHL6Be9o_x86XO8_9Y_6H30Tqg86XVB8BXLVh3MUbxfpCgBK7NYCqcTvHg88Jxfv9LmpJg1kBOsUrXMbgO9gDVOCULOQTpGZCOfihVOSXcpZqt9ibX11wSGhGL16HwqEGwyprL1r8wsqcxBRwC_beU8icP9YgCYK9V_SDr_fvxmCqfzFhL9J6p0ugtO6qOO-we9fvuK8cP_6exCRbxM2JrGDg2BEBCLD9HfnbLZLDN9ICNBiqgCECp08bL1WBCZ4ucGgcXCguYpVhNfd9FY1vOGthS8whXBBBgC".spec_bytes()])
}

/// The headers of a Zhihu creator API request. The cookie and the token
/// must be valid header values (the request could not carry them
/// otherwise).
pub fn build_headers(cookie: &str, xsrf: &str) -> (headers: HeaderMap<HeaderValue>)
    requires
        is_header_value_text(cookie.spec_bytes()),
        is_header_value_text(xsrf.spec_bytes()),
    ensures
        header_entries(headers) == zhihu_headers(cookie.spec_bytes(), xsrf.spec_bytes()),
{
    proof {
        reveal_strlit("accept");
        reveal_strlit("*/*");
        reveal_strlit("accept-encoding");
        reveal_strlit("gzip, deflate, br, zstd");
        reveal_strlit("accept-language");
        reveal_strlit("zh-CN,zh;q=0.9,en-GB;q=0.8,en-US;q=0.7,en;q=0.6");
        reveal_strlit("cache-control");
        reveal_strlit("no-cache");
        reveal_strlit("content-type");
        reveal_strlit("application/json");
        reveal_strlit("cookie");
        reveal_strlit("origin");
        reveal_strlit("https://www.zhihu.com");
        reveal_strlit("pragma");
        reveal_strlit("no-cache");
        reveal_strlit("referer");
        reveal_strlit("https://www.zhihu.com/");
        reveal_strlit("sec-ch-ua");
        reveal_strlit("\"Chromium\";v=\"154\", \"Microsoft Edge\";v=\"154\", \"Not A(Brand\";v=\"99\"");
        reveal_strlit("sec-ch-ua-mobile");
        reveal_strlit("?0");
        reveal_strlit("sec-ch-ua-platform");
        reveal_strlit("\"Windows\"");
        reveal_strlit("sec-fetch-dest");
        reveal_strlit("empty");
        reveal_strlit("sec-fetch-mode");
        reveal_strlit("cors");
        reveal_strlit("sec-fetch-site");
        reveal_strlit("same-origin");
        reveal_strlit("user-agent");
        reveal_strlit("Mozilla/5.0 (Windows NT 10.0; Win64; x64) AppleWebKit/537.36 (KHTML, like Gecko) Chrome/154.0.0.0 Safari/537.36");
        reveal_strlit("x-requested-with");
        reveal_strlit("fetch");
        reveal_strlit("x-xsrftoken");
        reveal_strlit("x-zse-93");
        reveal_strlit("101_3_3.0");
        reveal_strlit("x-zse-96");
        reveal_strlit("2.0_bd2PBk+dz2elz2PSCVFrhkolkAZGKrUdb8zk/ih6ozfMdy1mdRsUh15DkD+wbOZQ");
        reveal_strlit("x-zst-81");
        reveal_strlit("3_2.0aR_sn77yn6O92wOB8hPZnQr0EMYxc4f18wNBUgpTQ6nxERFZKLY0-4Lm-h3_tufIwJS8gcxTgJS_AuPZNcXCTwxI78YxEM20s4PGDwN8gGcYAupMWufIeQuK7AFpS6O1vukyQ_R0rRnsyukMGvxBEqeCiRnxEL2ZZrxmDucmqhPXnXFMTAoTF6RhRuLPF0YqtrHL6Be9o_x86XO8_9Y_6H30Tqg86XVB8BXLVh3MUbxfpCgBK7NYCqcTvHg88Jxfv9LmpJg1kBOsUrXMbgO9gDVOCULOQTpGZCOfihVOSXcpZqt9ibX11wSGhGL16HwqEGwyprL1r8wsqcxBRwC_beU8icP9YgCYK9V_SDr_fvxmCqfzFhL9J6p0ugtO6qOO-we9fvuK8cP_6exCRbxM2JrGDg2BEBCLD9HfnbLZLDN9ICNBiqgCECp08bL1WBCZ4ucGgcXCguYpVhNfd9FY1vOGthS8whXBBBgC");
    }
    let cookie_value = header_value_from_str(cookie).unwrap();
    let xsrf_value = header_value_from_str(xsrf).unwrap();
    let mut headers = header_map_new();
    header_insert(&mut headers, "accept", header_value_static("*/*"));
    header_insert(&mut headers, "accept-encoding", header_value_static("gzip, deflate, br, zstd"));
    header_insert(&mut headers, "accept-language", header_value_static("zh-CN,zh;q=0.9,en-GB;q=0.8,en-US;q=0.7,en;q=0.6"));
    header_insert(&mut headers, "cache-control", header_value_static("no-cache"));
    header_insert(&mut headers, "content-type", header_value_static("application/json"));
    header_insert(&mut headers, "cookie", cookie_value);
    header_insert(&mut headers, "origin", header_value_static("https://www.zhihu.com"));
    header_insert(&mut headers, "pragma", header_value_static("no-cache"));
    header_insert(&mut headers, "referer", header_value_static("https://www.zhihu.com/"));
    header_insert(&mut headers, "sec-ch-ua", header_value_static("\"Chromium\";v=\"154\", \"Microsoft Edge\";v=\"154\", \"Not A(Brand\";v=\"99\""));
    header_insert(&mut headers, "sec-ch-ua-mobile", header_value_static("?0"));
    header_insert(&mut headers, "sec-ch-ua-platform", header_value_static("\"Windows\""));
    header_insert(&mut headers, "sec-fetch-dest", header_value_static("empty"));
    header_insert(&mut headers, "sec-fetch-mode", header_value_static("cors"));
    header_insert(&mut headers, "sec-fetch-site", header_value_static("same-origin"));
    header_insert(&mut headers, "user-agent", header_value_static("Mozilla/5.0 (Windows NT 10.0; Win64; x64) AppleWebKit/537.36 (KHTML, like Gecko) Chrome/154.0.0.0 Safari/537.36"));
    header_insert(&mut headers, "x-requested-with", header_value_static("fetch"));
    header_insert(&mut headers, "x-xsrftoken", xsrf_value);
    header_insert(&mut headers, "x-zse-93", header_value_static("101_3_3.0"));
    header_insert(&mut headers, "x-zse-96", header_value_static("2.0_bd2PBk+dz2elz2PSCVFrhkolkAZGKrUdb8zk/ih6ozfMdy1mdRsUh15DkD+wbOZQ"));
    header_insert(&mut headers, "x-zst-81", header_value_static("3_2.0aR_sn77yn6O92wOB8hPZnQr0EMYxc4f18wNBUgpTQ6nxERFZKLY0-4Lm-h3_tufIwJS8gcxTgJS_AuPZNcXCTwxI78YxEM20s4PGDwN8gGcYAupMWufIeQuK7AFpS6O1vukyQ_R0rRnsyukMGvxBEqeCiRnxEL2ZZrxmDucmqhPXnXFMTAoTF6RhRuLPF0YqtrHL6Be9o_x86XO8_9Y_6H30Tqg86XVB8BXLVh3MUbxfpCgBK7NYCqcTvHg88Jxfv9LmpJg1kBOsUrXMbgO9gDVOCULOQTpGZCOfihVOSXcpZqt9ibX11wSGhGL16HwqEGwyprL1r8wsqcxBRwC_beU8icP9YgCYK9V_SDr_fvxmCqfzFhL9J6p0ugtO6qOO-we9fvuK8cP_6exCRbxM2JrGDg2BEBCLD9HfnbLZLDN9ICNBiqgCECp08bL1WBCZ4ucGgcXCguYpVhNfd9FY1vOGthS8whXBBBgC"));
    headers
}

/// The headers carry the cookie and the token as given, each alone under
/// its name.
pub proof fn lemma_headers_carry_credentials(cookie: Seq<u8>, xsrf: Seq<u8>)
    ensures
        zhihu_headers(cookie, xsrf).dom().contains("cookie"@),
        zhihu_headers(cookie, xsrf)["cookie"@] == seq![cookie],
        zhihu_headers(cookie, xsrf).dom().contains("x-xsrftoken"@),
        zhihu_headers(cookie, xsrf)["x-xsrftoken"@] == seq![xsrf],
{
    assert("cookie"@ != "origin"@) by { reveal_strlit("cookie"); reveal_strlit("origin"); assert("cookie"@[0] != "origin"@[0]); }
    assert("cookie"@ != "pragma"@) by { reveal_strlit("cookie"); reveal_strlit("pragma"); assert("cookie"@[0] != "pragma"@[0]); }
    assert("cookie"@ != "referer"@) by { reveal_strlit("cookie"); reveal_strlit("referer"); assert("cookie"@.len() != "referer"@.len()); }
    assert("cookie"@ != "sec-ch-ua"@) by { reveal_strlit("cookie"); reveal_strlit("sec-ch-ua"); assert("cookie"@.len() != "sec-ch-ua"@.len()); }
    assert("cookie"@ != "sec-ch-ua-mobile"@) by { reveal_strlit("cookie"); reveal_strlit("sec-ch-ua-mobile"); assert("cookie"@.len() != "sec-ch-ua-mobile"@.len()); }
    assert("cookie"@ != "sec-ch-ua-platform"@) by { reveal_strlit("cookie"); reveal_strlit("sec-ch-ua-platform"); assert("cookie"@.len() != "sec-ch-ua-platform"@.len()); }
    assert("cookie"@ != "sec-fetch-dest"@) by { reveal_strlit("cookie"); reveal_strlit("sec-fetch-dest"); assert("cookie"@.len() != "sec-fetch-dest"@.len()); }
    assert("cookie"@ != "sec-fetch-mode"@) by { reveal_strlit("cookie"); reveal_strlit("sec-fetch-mode"); assert("cookie"@.len() != "sec-fetch-mode"@.len()); }
    assert("cookie"@ != "sec-fetch-site"@) by { reveal_strlit("cookie"); reveal_strlit("sec-fetch-site"); assert("cookie"@.len() != "sec-fetch-site"@.len()); }
    assert("cookie"@ != "user-agent"@) by { reveal_strlit("cookie"); reveal_strlit("user-agent"); assert("cookie"@.len() != "user-agent"@.len()); }
    assert("cookie"@ != "x-requested-with"@) by { reveal_strlit("cookie"); reveal_strlit("x-requested-with"); assert("cookie"@.len() != "x-requested-with"@.len()); }
    assert("cookie"@ != "x-xsrftoken"@) by { reveal_strlit("cookie"); reveal_strlit("x-xsrftoken"); assert("cookie"@.len() != "x-xsrftoken"@.len()); }
    assert("cookie"@ != "x-zse-93"@) by { reveal_strlit("cookie"); reveal_strlit("x-zse-93"); assert("cookie"@.len() != "x-zse-93"@.len()); }
    assert("cookie"@ != "x-zse-96"@) by { reveal_strlit("cookie"); reveal_strlit("x-zse-96"); assert("cookie"@.len() != "x-zse-96"@.len()); }
    assert("cookie"@ != "x-zst-81"@) by { reveal_strlit("cookie"); reveal_strlit("x-zst-81"); assert("cookie"@.len() != "x-zst-81"@.len()); }
    assert("x-xsrftoken"@ != "x-zse-93"@) by { reveal_strlit("x-xsrftoken"); reveal_strlit("x-zse-93"); assert("x-xsrftoken"@.len() != "x-zse-93"@.len()); }
    assert("x-xsrftoken"@ != "x-zse-96"@) by { reveal_strlit("x-xsrftoken"); reveal_strlit("x-zse-96"); assert("x-xsrftoken"@.len() != "x-zse-96"@.len()); }
    assert("x-xsrftoken"@ != "x-zst-81"@) by { reveal_strlit("x-xsrftoken"); reveal_strlit("x-zst-81"); assert("x-xsrftoken"@.len() != "x-zst-81"@.len()); }
}

} // verus!
