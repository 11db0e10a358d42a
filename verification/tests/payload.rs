//! The font-files payload and response.

use fonthelper::decimal::{bool_to_str, u64_to_dec};
use fonthelper::get_files::{build_font_files_json, font_files_response, FontEntry, FontFile};

fn entry(postscript: &str, family: &str, id: &str, style: &str, weight: u16) -> FontEntry {
    FontEntry {
        postscript: String::from(postscript),
        family: String::from(family),
        id: String::from(id),
        style: String::from(style),
        weight,
        stretch: 5,
        italic: false,
    }
}

#[test]
fn decimal_rendering_is_exact() {
    assert_eq!(u64_to_dec(0), "0");
    assert_eq!(u64_to_dec(7), "7");
    assert_eq!(u64_to_dec(10), "10");
    assert_eq!(u64_to_dec(400), "400");
    assert_eq!(u64_to_dec(1699999999), "1699999999");
    assert_eq!(u64_to_dec(u64::MAX), "18446744073709551615");
    assert_eq!(bool_to_str(true), "true");
    assert_eq!(bool_to_str(false), "false");
}

#[test]
fn empty_font_list_payload() {
    // With nothing to list the writer still drops one character, the opening
    // brace of the member list, so the payload closes immediately.
    let json = build_font_files_json(&Vec::new());
    assert_eq!(json, "{\"version\": 23,\"fontFiles\":}}");
}

#[test]
fn single_font_single_entry_payload() {
    let fonts = vec![FontFile {
        path: String::from("/usr/share/fonts/DejaVuSans.ttf"),
        entries: vec![entry("DejaVuSans", "DejaVu Sans", "dejavu-sans", "Book", 400)],
        modified_at: 1600000000,
    }];
    let json = build_font_files_json(&fonts);
    assert_eq!(
        json,
        "{\"version\": 23,\"fontFiles\":{\"/usr/share/fonts/DejaVuSans.ttf\":[{\"postscript\": \"DejaVuSans\",\"family\": \"DejaVu Sans\",\"id\": \"dejavu-sans\",\"style\": \"Book\",\"weight\": 400,\"stretch\": 5,\"italic\": false,\"modified_at\": 1600000000,\"user_installed\": true}]}}"
    );
}

#[test]
fn entries_are_comma_separated_and_empty_files_skipped() {
    let fonts = vec![
        FontFile {
            path: String::from("/a.ttf"),
            entries: Vec::new(),
            modified_at: 5,
        },
        FontFile {
            path: String::from("/b.ttf"),
            entries: vec![
                entry("B", "B Fam", "b", "Regular", 400),
                entry("B-Bold", "B Fam", "b-bold", "Bold", 700),
            ],
            modified_at: 12,
        },
    ];
    let json = build_font_files_json(&fonts);
    let first = "{\"postscript\": \"B\",\"family\": \"B Fam\",\"id\": \"b\",\"style\": \"Regular\",\"weight\": 400,\"stretch\": 5,\"italic\": false,\"modified_at\": 12,\"user_installed\": true}";
    let second = "{\"postscript\": \"B-Bold\",\"family\": \"B Fam\",\"id\": \"b-bold\",\"style\": \"Bold\",\"weight\": 700,\"stretch\": 5,\"italic\": false,\"modified_at\": 12,\"user_installed\": true}";
    assert_eq!(
        json,
        format!("{{\"version\": 23,\"fontFiles\":{{\"/b.ttf\":[{},{}]}}}}", first, second)
    );
}

#[test]
fn italic_entries_render_true() {
    let fonts = vec![FontFile {
        path: String::from("/i.ttf"),
        entries: vec![FontEntry {
            postscript: String::from("I"),
            family: String::from("I Fam"),
            id: String::from("i"),
            style: String::from("Italic"),
            weight: 400,
            stretch: 5,
            italic: true,
        }],
        modified_at: 0,
    }];
    let json = build_font_files_json(&fonts);
    assert!(json.contains("\"italic\": true,"));
    assert!(json.contains("\"modified_at\": 0,"));
}

#[test]
fn font_files_response_headers_and_body() {
    let fonts = vec![FontFile {
        path: String::from("/b.ttf"),
        entries: vec![entry("B", "B Fam", "b", "Regular", 400)],
        modified_at: 12,
    }];
    let r = font_files_response(&fonts);
    assert_eq!(r.status, 200);
    let json = build_font_files_json(&fonts);
    assert_eq!(r.body, json.as_bytes());
    assert_eq!(r.headers.len(), 4);
    assert_eq!(r.headers[0].0, "Access-Control-Allow-Origin");
    assert_eq!(r.headers[0].1, "https://www.figma.com");
    assert_eq!(r.headers[1].0, "Access-Control-Allow-Private-Network");
    assert_eq!(r.headers[1].1, "true");
    assert_eq!(r.headers[2].0, "Content-Type");
    assert_eq!(r.headers[2].1, "application/json");
    assert_eq!(r.headers[3].0, "Content-Length");
    assert_eq!(r.headers[3].1, r.body.len().to_string());
}
