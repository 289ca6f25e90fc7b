use bitum_frontend::api::{
    bot_path, bot_token_path, chat_member_add_path, chat_member_path, chat_members_path,
    chat_message_path, chat_messages_path, chat_path, endpoint,
};
use bitum_frontend::display::{
    display_timestamp_date, get_random_color_image_url, get_random_rgb_color,
    parse_markdown_to_html, try_display_timestamp_date,
};
use bitum_frontend::numfmt::{decimal_i32, decimal_u64, hex_byte, pad2_i32, pad2_u32};
use rand::{Rng, SeedableRng};

#[test]
fn endpoint_prefixes_the_api_mount() {
    assert_eq!(endpoint("/user"), "/api/user");
    assert_eq!(endpoint("/chats"), "/api/chats");
    assert_eq!(endpoint(""), "/api");
}

#[test]
fn paths_render_their_ids_in_decimal() {
    assert_eq!(chat_path(5), "/chat/5");
    assert_eq!(chat_messages_path(5), "/chat/5/messages");
    assert_eq!(chat_message_path(17), "/chat/17/message");
    assert_eq!(chat_members_path(5), "/chat/5/members");
    assert_eq!(chat_member_add_path(5), "/chat/5/member");
    assert_eq!(chat_member_path(5, 42), "/chat/5/member/42");
    assert_eq!(bot_path(3), "/bot/3");
    assert_eq!(bot_token_path(3), "/bot/3/token");
    assert_eq!(chat_path(-7), "/chat/-7");
}

#[test]
fn decimal_renderings_are_exact() {
    assert_eq!(decimal_u64(0), "0");
    assert_eq!(decimal_u64(107), "107");
    assert_eq!(decimal_u64(u64::MAX), "18446744073709551615");
    assert_eq!(decimal_i32(-1), "-1");
    assert_eq!(decimal_i32(i32::MIN), "-2147483648");
    assert_eq!(pad2_u32(7), "07");
    assert_eq!(pad2_u32(31), "31");
    assert_eq!(pad2_i32(5), "05");
    assert_eq!(pad2_i32(1970), "1970");
    assert_eq!(pad2_i32(-70), "-70");
}

#[test]
fn hex_renderings_are_exact() {
    assert_eq!(hex_byte(0), "00");
    assert_eq!(hex_byte(5), "05");
    assert_eq!(hex_byte(25), "19");
    assert_eq!(hex_byte(255), "ff");
    assert_eq!(hex_byte(0xab), "ab");
}

#[test]
fn timestamps_render_as_padded_utc_dates() {
    assert_eq!(display_timestamp_date(0), "01/01/1970");
    // 2015-05-15 00:00:00 UTC.
    assert_eq!(display_timestamp_date(1_431_648_000), "15/05/2015");
    // 2009-02-13 23:31:30 UTC.
    assert_eq!(display_timestamp_date(1_234_567_890), "13/02/2009");
    // One second before the epoch is the last day of 1969.
    assert_eq!(display_timestamp_date(-1), "31/12/1969");
}

#[test]
fn out_of_range_timestamps_are_reported_not_fatal() {
    assert!(try_display_timestamp_date(i64::MAX).is_none());
    assert!(try_display_timestamp_date(i64::MIN).is_none());
    assert_eq!(try_display_timestamp_date(0).unwrap(), "01/01/1970");
}

#[test]
fn markdown_is_rendered_and_user_markup_is_escaped() {
    let strong = parse_markdown_to_html("**bold** move".to_string());
    assert!(strong.contains("<strong>bold</strong>"));
    // Raw markup typed by a user is escaped before rendering, so a script
    // tag never reaches the page as a tag.
    let hostile = parse_markdown_to_html("<script>alert(1)</script>".to_string());
    assert!(!hostile.contains("<script>"));
    assert!(hostile.contains("&lt;"));
    // Soft line breaks are hardened into explicit breaks.
    let broken = parse_markdown_to_html("one\ntwo".to_string());
    assert!(broken.contains("<br"));
    // Strikethrough is enabled.
    let struck = parse_markdown_to_html("~~gone~~".to_string());
    assert!(struck.contains("<del>"));
}

#[test]
fn seeded_colors_reproduce_the_chacha_stream() {
    let (r, g, b) = get_random_rgb_color(Some(99));
    let mut rng = rand_chacha::ChaCha8Rng::seed_from_u64(99);
    let expected: (u8, u8, u8) = (rng.gen(), rng.gen(), rng.gen());
    assert_eq!((r, g, b), expected);
    // The same seed always draws the same color.
    assert_eq!(get_random_rgb_color(Some(99)), (r, g, b));
}

#[test]
fn avatar_urls_are_stable_and_well_formed() {
    let url = get_random_color_image_url("alice".to_string(), 75, 75);
    let again = get_random_color_image_url("alice".to_string(), 75, 75);
    assert_eq!(url, again);
    assert!(url.starts_with("https://singlecolorimage.com/get/"));
    assert!(url.ends_with("/75x75.png"));
    let color = &url["https://singlecolorimage.com/get/".len()..url.len() - "/75x75.png".len()];
    assert_eq!(color.len(), 6);
    assert!(color.chars().all(|c| c.is_ascii_hexdigit()));
    // The drawn channels are lifted away from near-black, and the third pair
    // repeats the second, as the client has always rendered it.
    let pairs: Vec<u8> = (0..3)
        .map(|i| u8::from_str_radix(&color[2 * i..2 * i + 2], 16).unwrap())
        .collect();
    assert!(pairs.iter().all(|&c| c >= 25));
    assert_eq!(pairs[1], pairs[2]);
    // The color comes from the byte sum of the name, so another name with
    // the same byte sum shares it.
    let seed: u64 = "alice".bytes().map(|b| b as u64).sum();
    let expected = {
        let mut rng = rand_chacha::ChaCha8Rng::seed_from_u64(seed);
        let drawn: (u8, u8, u8) = (rng.gen(), rng.gen(), rng.gen());
        (drawn.0.max(25), drawn.1.max(25), drawn.1.max(25))
    };
    assert_eq!((pairs[0], pairs[1], pairs[2]), expected);
}
