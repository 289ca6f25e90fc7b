//! Display helpers: message timestamps as dates, markdown message bodies as
//! HTML, and the solid-color avatar images derived from a name.

use vstd::prelude::*;

use rand::{Rng, SeedableRng};

use crate::numfmt::{
    dec_int, decimal_i32, hex_byte, hex_pair, pad2, pad2_i32, pad2_int, pad2_u32,
};

verus! {

/// What chrono computes as the civil `(day, month, year)` in UTC of the
/// given Unix timestamp, when the timestamp is representable.
pub uninterp spec fn civil_date_of(ts: i64) -> Option<(u32, u32, i32)>;

/// Relies on chrono's `DateTime::from_timestamp` and `Datelike::{day, month,
/// year}`: the civil date depends on the timestamp alone; `None` comes
/// exactly on chrono's out-of-range seconds; `day` lies in 1..=31 and
/// `month` in 1..=12.
#[verifier::external_body]
fn civil_from_timestamp(ts: i64) -> (r: Option<(u32, u32, i32)>)
    ensures
        r == civil_date_of(ts),
        r matches Some(dmy) ==> 1 <= dmy.0 <= 31 && 1 <= dmy.1 <= 12,
{
    match chrono::DateTime::from_timestamp(ts, 0) {
        Some(dt) => Some(
            (chrono::Datelike::day(&dt), chrono::Datelike::month(&dt), chrono::Datelike::year(&dt)),
        ),
        None => None,
    }
}

/// A civil date rendered as `day/month/year`, day and month zero-padded to
/// two digits.
pub open spec fn date_text(dmy: (u32, u32, i32)) -> Seq<char> {
    pad2(dmy.0 as nat) + "/"@ + pad2(dmy.1 as nat) + "/"@ + pad2_int(dmy.2 as int)
}

/// Renders a message timestamp as its UTC date, `day/month/year`.
pub fn display_timestamp_date(timestamp: i64) -> (r: String)
    requires
        civil_date_of(timestamp) is Some,
    ensures
        r@ == date_text(civil_date_of(timestamp)->Some_0),
{
    let civil = civil_from_timestamp(timestamp);
    match civil {
        Some((day, month, year)) => {
            let mut s = pad2_u32(day);
            s.append("/");
            let month_text = pad2_u32(month);
            s.append(month_text.as_str());
            s.append("/");
            let year_text = pad2_i32(year);
            s.append(year_text.as_str());
            proof {
                assert(s@ =~= date_text(civil_date_of(timestamp)->Some_0));
            }
            s
        },
        None => {
            proof {
                assert(false);
            }
            String::new()
        },
    }
}

/// Renders a message timestamp as its UTC date where the timestamp is
/// representable, and reports an unrepresentable one instead of failing.
pub fn try_display_timestamp_date(timestamp: i64) -> (r: Option<String>)
    ensures
        r is Some <==> civil_date_of(timestamp) is Some,
        r matches Some(text) ==> text@ == date_text(civil_date_of(timestamp)->Some_0),
{
    match civil_from_timestamp(timestamp) {
        Some(_) => Option::Some(display_timestamp_date(timestamp)),
        None => Option::None,
    }
}

/// What html_escape's `encode_safe` returns for the given text.
pub uninterp spec fn escaped_of(text: Seq<char>) -> Seq<char>;

/// Relies on html_escape's `encode_safe`: the escaped text depends on the
/// input alone.
#[verifier::external_body]
fn escape_html(text: &str) -> (r: String)
    ensures
        r@ == escaped_of(text@),
{
    html_escape::encode_safe(text).into_owned()
}

/// What pulldown-cmark renders for the given markdown, with tables,
/// strikethrough, task lists and smart punctuation enabled and every soft
/// break hardened.
pub uninterp spec fn rendered_of(markdown: Seq<char>) -> Seq<char>;

/// Relies on pulldown_cmark's `Parser::new_ext` and `html::push_html`: the
/// rendered HTML depends on the markdown and the fixed options alone.
#[verifier::external_body]
fn render_markdown(markdown: &str) -> (r: String)
    ensures
        r@ == rendered_of(markdown@),
{
    let mut options = pulldown_cmark::Options::empty();
    options.insert(pulldown_cmark::Options::ENABLE_TABLES);
    options.insert(pulldown_cmark::Options::ENABLE_STRIKETHROUGH);
    options.insert(pulldown_cmark::Options::ENABLE_TASKLISTS);
    options.insert(pulldown_cmark::Options::ENABLE_SMART_PUNCTUATION);
    let parser = pulldown_cmark::Parser::new_ext(markdown, options).map(|event| match event {
        pulldown_cmark::Event::SoftBreak => pulldown_cmark::Event::HardBreak,
        other => other,
    });
    let mut html_buf = String::new();
    pulldown_cmark::html::push_html(&mut html_buf, parser);
    html_buf
}

/// Converts a message body to HTML: the text is HTML-escaped first, so
/// markup typed by a user never reaches the page raw, and the escaped text
/// is then rendered as markdown.
pub fn parse_markdown_to_html(markdown: String) -> (r: String)
    ensures
        r@ == rendered_of(escaped_of(markdown@)),
{
    let escaped = escape_html(markdown.as_str());
    render_markdown(escaped.as_str())
}

/// The three bytes rand_chacha's ChaCha8 stream yields for the given seed.
pub uninterp spec fn seeded_rgb_of(seed: u64) -> (u8, u8, u8);

/// Relies on rand_chacha's `ChaCha8Rng::seed_from_u64` and rand's `gen`: the
/// stream is a pure function of the seed, so these three bytes depend on the
/// seed alone.
#[verifier::external_body]
fn seeded_rgb(seed: u64) -> (rgb: (u8, u8, u8))
    ensures
        rgb == seeded_rgb_of(seed),
{
    let mut rng = rand_chacha::ChaCha8Rng::seed_from_u64(seed);
    (rng.gen(), rng.gen(), rng.gen())
}

/// Relies on rand's `thread_rng` and `gen`: nothing is promised of the three
/// bytes.
#[verifier::external_body]
fn thread_rgb() -> (rgb: (u8, u8, u8)) {
    let mut rng = rand::thread_rng();
    (rng.gen(), rng.gen(), rng.gen())
}

/// Draws a color: reproducibly from the seed when one is given, freshly
/// random otherwise.
pub fn get_random_rgb_color(seed: Option<u64>) -> (rgb: (u8, u8, u8))
    ensures
        seed matches Some(s) ==> rgb == seeded_rgb_of(s),
{
    match seed {
        Some(s) => seeded_rgb(s),
        None => thread_rgb(),
    }
}

/// The sum of a sequence of bytes.
pub open spec fn byte_sum(bytes: Seq<u8>) -> int
    decreases bytes.len(),
{
    if bytes.len() == 0 {
        0
    } else {
        byte_sum(bytes.drop_last()) + bytes.last()
    }
}

proof fn lemma_byte_sum_bounds(bytes: Seq<u8>)
    ensures
        0 <= byte_sum(bytes) <= 255 * bytes.len(),
    decreases bytes.len(),
{
    if bytes.len() > 0 {
        lemma_byte_sum_bounds(bytes.drop_last());
    }
}

proof fn lemma_byte_sum_take_step(bytes: Seq<u8>, i: int)
    requires
        0 <= i < bytes.len(),
    ensures
        byte_sum(bytes.take(i + 1)) == byte_sum(bytes.take(i)) + bytes[i],
{
    assert(bytes.take(i + 1).drop_last() =~= bytes.take(i));
}

proof fn lemma_byte_sum_take_le(bytes: Seq<u8>, i: int)
    requires
        0 <= i <= bytes.len(),
    ensures
        byte_sum(bytes.take(i)) <= byte_sum(bytes),
    decreases bytes.len() - i,
{
    if i == bytes.len() {
        assert(bytes.take(i) =~= bytes);
    } else {
        lemma_byte_sum_take_step(bytes, i);
        lemma_byte_sum_take_le(bytes, i + 1);
    }
}

/// Sums the UTF-8 bytes of a name to seed its avatar color.
fn seed_of_name(name: &str) -> (seed: u64)
    requires
        byte_sum(vstd::utf8::encode_utf8(name@)) <= u64::MAX,
    ensures
        seed == byte_sum(vstd::utf8::encode_utf8(name@)),
{
    let bytes = name.as_bytes();
    let ghost all = bytes@;
    let n = bytes.len();
    let mut sum: u64 = 0;
    let mut i: usize = 0;
    proof {
        lemma_byte_sum_bounds(all);
        assert(all.take(0) =~= Seq::<u8>::empty());
    }
    while i < n
        invariant
            n == all.len(),
            bytes@ == all,
            i <= n,
            sum == byte_sum(all.take(i as int)),
            byte_sum(all) <= u64::MAX,
        decreases n - i,
    {
        proof {
            lemma_byte_sum_take_step(all, i as int);
            lemma_byte_sum_take_le(all, i as int + 1);
            lemma_byte_sum_bounds(all.take(i as int + 1));
        }
        sum = sum + (bytes[i] as u64);
        i = i + 1;
    }
    proof {
        assert(all.take(n as int) =~= all);
    }
    sum
}

/// The address of a solid-color image, one color per name.
pub open spec fn avatar_url_text(rgb: (u8, u8, u8), width: i32, height: i32) -> Seq<char> {
    "https://singlecolorimage.com/get/"@ + hex_pair(rgb.0 as nat) + hex_pair(rgb.1 as nat)
        + hex_pair(rgb.2 as nat) + "/"@ + dec_int(width as int) + "x"@ + dec_int(height as int)
        + ".png"@
}

/// Lifts a drawn color away from near-black and drops the blue channel,
/// which reuses the green value, as the client has always rendered it.
pub open spec fn shown_rgb(rgb: (u8, u8, u8)) -> (u8, u8, u8) {
    (max8(rgb.0, 25), max8(rgb.1, 25), max8(rgb.1, 25))
}

pub open spec fn max8(a: u8, b: u8) -> u8 {
    if a < b {
        b
    } else {
        a
    }
}

fn max8_exec(a: u8, b: u8) -> (r: u8)
    ensures
        r == max8(a, b),
{
    if a < b {
        b
    } else {
        a
    }
}

/// The address of the avatar image for a name: the color is drawn
/// reproducibly from the sum of the name's bytes, lifted away from
/// near-black.
pub fn get_random_color_image_url(seed_str: String, width: i32, height: i32) -> (r: String)
    requires
        byte_sum(vstd::utf8::encode_utf8(seed_str@)) <= u64::MAX,
    ensures
        r@ == avatar_url_text(
            shown_rgb(seeded_rgb_of(byte_sum(vstd::utf8::encode_utf8(seed_str@)) as u64)),
            width,
            height,
        ),
{
    let seed = seed_of_name(seed_str.as_str());
    let drawn = get_random_rgb_color(Some(seed));
    let shown = (max8_exec(drawn.0, 25), max8_exec(drawn.1, 25), max8_exec(drawn.1, 25));
    let mut s = String::new();
    s.append("https://singlecolorimage.com/get/");
    let red = hex_byte(shown.0);
    s.append(red.as_str());
    let green = hex_byte(shown.1);
    s.append(green.as_str());
    let blue = hex_byte(shown.2);
    s.append(blue.as_str());
    s.append("/");
    let width_text = decimal_i32(width);
    s.append(width_text.as_str());
    s.append("x");
    let height_text = decimal_i32(height);
    s.append(height_text.as_str());
    s.append(".png");
    proof {
        assert(s@ =~= avatar_url_text(
            shown_rgb(seeded_rgb_of(byte_sum(vstd::utf8::encode_utf8(seed_str@)) as u64)),
            width,
            height,
        ));
    }
    s
}

} // verus!
