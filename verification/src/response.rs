//! Response framing and the numeric payload serializer.
//!
//! The node serves three fixed documents: a static HTML page, a static
//! stylesheet, and the current reading serialized as a small JSON array of
//! field-name/value pairs.  Everything here is byte-exact: each builder's
//! contract states the full byte sequence it produces.

use vstd::prelude::*;
use vstd::string::*;

use crate::http::Route;
use crate::reading::Reading;
use crate::store::SharedReading;

verus! {

/// The static HTML page served at the root: it fetches the sensor payload
/// and shows the three fields, reloading every ten seconds.
pub const INDEX_HTML: &'static str = "<!DOCTYPE html><html><head><title>CO2 monitor</title><link rel=\"stylesheet\" href=\"/main.css\"></head><body><h1>CO2 monitor</h1><p id=\"r\">waiting for a reading</p><script>fetch('/data').then(function(x){return x.json();}).then(function(d){document.getElementById('r').textContent=d[0][0]+': '+d[0][1]+' ppm, '+d[1][0]+': '+d[1][1]+' C, '+d[2][0]+': '+d[2][1]+' %';});setTimeout(function(){location.reload();},10000);</script></body></html>";

/// The static stylesheet.
pub const MAIN_CSS: &'static str = "body{font-family:sans-serif;margin:2em;background:#f2f4f5}h1{color:#205070}p{font-size:1.4em}";

/// The decimal digits of `n`, most significant first, as ASCII bytes.
pub open spec fn spec_digits(n: nat) -> Seq<u8>
    decreases n,
{
    if n < 10 {
        seq![(48 + n) as u8]
    } else {
        spec_digits(n / 10) + seq![(48 + n % 10) as u8]
    }
}

/// Appends the decimal digits of `n` to `v`.
pub fn push_digits(v: &mut Vec<u8>, n: u64)
    ensures
        final(v)@ == old(v)@ + spec_digits(n as nat),
    decreases n,
{
    if n < 10 {
        v.push(48 + (n as u8));
        assert(v@ =~= old(v)@ + spec_digits(n as nat));
    } else {
        push_digits(v, n / 10);
        v.push(48 + ((n % 10) as u8));
        assert(v@ =~= old(v)@ + spec_digits(n as nat));
    }
}

/// A fixed-point value in hundredths, rendered with a sign when negative,
/// the integer part, a point, and exactly two fractional digits.
pub open spec fn spec_centi(c: int) -> Seq<u8> {
    if c < 0 {
        seq![45u8] + spec_centi_magnitude((-c) as nat)
    } else {
        spec_centi_magnitude(c as nat)
    }
}

/// The unsigned part of the fixed-point rendering: `n` hundredths as
/// `n / 100`, a point, and the two remaining digits.
pub open spec fn spec_centi_magnitude(n: nat) -> Seq<u8> {
    spec_digits(n / 100) + seq![46u8, (48 + (n / 10) % 10) as u8, (48 + n % 10) as u8]
}

/// Appends the fixed-point rendering of `c` hundredths to `v`.
pub fn push_centi(v: &mut Vec<u8>, c: i32)
    ensures
        final(v)@ == old(v)@ + spec_centi(c as int),
{
    let m: u64 = if c < 0 {
        v.push(45);
        ((-(c as i64)) as u64)
    } else {
        (c as u64)
    };
    assert(m as nat == if c < 0 { (-(c as int)) as nat } else { c as nat });
    push_digits(v, m / 100);
    v.push(46);
    v.push(48 + ((m / 10) % 10) as u8);
    v.push(48 + (m % 10) as u8);
    assert(v@ =~= old(v)@ + spec_centi(c as int));
}

/// The current reading as a JSON array of field-name/value pairs, in the
/// order CO2, temperature, humidity.
pub open spec fn spec_data_json(r: Reading) -> Seq<u8> {
    ("[[\"co2ppm\",").spec_bytes() + spec_digits(r.co2_ppm as nat) + (
    "],[\"temperature\",").spec_bytes() + spec_centi(r.temperature_centi as int) + (
    "],[\"humidity\",").spec_bytes() + spec_centi(r.humidity_centi as int) + ("]]").spec_bytes()
}

/// Serializes a reading as the JSON payload of the sensor-data route.
pub fn data_json(r: Reading) -> (v: Vec<u8>)
    ensures
        v@ == spec_data_json(r),
{
    let mut v: Vec<u8> = Vec::new();
    v.extend_from_slice(("[[\"co2ppm\",").as_bytes());
    push_digits(&mut v, r.co2_ppm as u64);
    v.extend_from_slice(("],[\"temperature\",").as_bytes());
    push_centi(&mut v, r.temperature_centi);
    v.extend_from_slice(("],[\"humidity\",").as_bytes());
    push_centi(&mut v, r.humidity_centi);
    v.extend_from_slice(("]]").as_bytes());
    assert(v@ =~= spec_data_json(r));
    v
}

/// A successful response: the status line, the content type, the exact
/// length of the body in bytes, a blank line, and the body.
pub open spec fn spec_ok_response(content_type: Seq<u8>, body: Seq<u8>) -> Seq<u8> {
    ("HTTP/1.1 200 OK\r\nContent-Type: ").spec_bytes() + content_type + (
    "\r\nContent-Length: ").spec_bytes() + spec_digits(body.len()) + ("\r\n\r\n").spec_bytes()
        + body
}

/// The response for a path or method the route table does not know.
pub open spec fn spec_not_found_response() -> Seq<u8> {
    ("HTTP/1.1 404 Not Found\r\nContent-Length: 0\r\n\r\n").spec_bytes()
}

/// Frames a successful response around a body.
pub fn ok_response(content_type: &str, body: &[u8]) -> (v: Vec<u8>)
    ensures
        v@ == spec_ok_response(content_type.spec_bytes(), body@),
{
    let mut v: Vec<u8> = Vec::new();
    v.extend_from_slice(("HTTP/1.1 200 OK\r\nContent-Type: ").as_bytes());
    v.extend_from_slice(content_type.as_bytes());
    v.extend_from_slice(("\r\nContent-Length: ").as_bytes());
    push_digits(&mut v, body.len() as u64);
    v.extend_from_slice(("\r\n\r\n").as_bytes());
    v.extend_from_slice(body);
    assert(v@ =~= spec_ok_response(content_type.spec_bytes(), body@));
    v
}

/// Builds the not-found response.
pub fn not_found_response() -> (v: Vec<u8>)
    ensures
        v@ == spec_not_found_response(),
{
    let mut v: Vec<u8> = Vec::new();
    v.extend_from_slice(("HTTP/1.1 404 Not Found\r\nContent-Length: 0\r\n\r\n").as_bytes());
    assert(v@ =~= spec_not_found_response());
    v
}

/// The full response each route produces, given the reading the store held
/// when the handler ran.
pub open spec fn spec_response_for(rt: Route, r: Reading) -> Seq<u8> {
    match rt {
        Route::Index => spec_ok_response(("text/html").spec_bytes(), (INDEX_HTML).spec_bytes()),
        Route::Stylesheet => spec_ok_response(("text/css").spec_bytes(), (MAIN_CSS).spec_bytes()),
        Route::SensorData => spec_ok_response(
            ("application/json").spec_bytes(),
            spec_data_json(r),
        ),
        Route::NotFound => spec_not_found_response(),
    }
}

/// Runs the handler of a route.  Handlers only ever read the store, never
/// write it: the sensor-data handler copies the current reading out and
/// serializes it, the other routes serve fixed documents.
pub fn response_for(rt: Route, store: &SharedReading) -> (v: Vec<u8>)
    ensures
        v@ == spec_response_for(rt, store@),
{
    match rt {
        Route::Index => ok_response("text/html", INDEX_HTML.as_bytes()),
        Route::Stylesheet => ok_response("text/css", MAIN_CSS.as_bytes()),
        Route::SensorData => {
            let r = store.read();
            let body = data_json(r);
            ok_response("application/json", body.as_slice())
        },
        Route::NotFound => not_found_response(),
    }
}

} // verus!
