//! The font-files endpoint: its route, and the formatting of the payload
//! that lists every font file with at least one entry together with the
//! entries' metadata. Enumerating the installed fonts and reading file
//! modification times is the font source's work; this module formats what it
//! hands over.

use vstd::prelude::*;
use vstd::string::{StrSliceExecFns, StringExecFns};
use vstd::utf8::encode_utf8;
use crate::decimal::{bool_str, bool_to_str, dec_str, u64_to_dec};
use crate::http::{HttpMethod, Response, trusted_origin, trusted_origin_str};
use crate::server::{HandlerRef, Route};

verus! {

/// One face found in a font file, as the font source reports it.
pub struct FontEntry {
    pub postscript: String,
    pub family: String,
    pub id: String,
    pub style: String,
    pub weight: u16,
    pub stretch: u16,
    pub italic: bool,
}

/// One font file: its path, the faces found in it, and the file's
/// modification time in seconds since the epoch (zero when unknown).
pub struct FontFile {
    pub path: String,
    pub entries: Vec<FontEntry>,
    pub modified_at: u64,
}

/// The object written for one entry of a font file.
pub open spec fn entry_json(e: FontEntry, modified_at: u64) -> Seq<char> {
    "{\"postscript\": \""@ + e.postscript@ + "\",\"family\": \""@ + e.family@ + "\",\"id\": \""@
        + e.id@ + "\",\"style\": \""@ + e.style@ + "\",\"weight\": "@ + dec_str(e.weight as nat)
        + ",\"stretch\": "@ + dec_str(e.stretch as nat) + ",\"italic\": "@ + bool_str(e.italic)
        + ",\"modified_at\": "@ + dec_str(modified_at as nat) + ",\"user_installed\": true}"@
}

/// The entry objects of one font file, separated by commas.
pub open spec fn entries_json(entries: Seq<FontEntry>, modified_at: u64) -> Seq<char>
    decreases entries.len(),
{
    if entries.len() == 0 {
        Seq::empty()
    } else if entries.len() == 1 {
        entry_json(entries[0], modified_at)
    } else {
        entry_json(entries[0], modified_at) + ","@ + entries_json(entries.drop_first(), modified_at)
    }
}

/// The member written for one font file: its path as the key, its entry
/// objects as an array.
pub open spec fn font_json(f: FontFile) -> Seq<char> {
    "\""@ + f.path@ + "\":["@ + entries_json(f.entries@, f.modified_at) + "]"@
}

/// The members for every font file that has at least one entry, in order,
/// each followed by a comma — the raw shape the writer accumulates before it
/// drops the final character.
pub open spec fn fonts_json_raw(fonts: Seq<FontFile>) -> Seq<char>
    decreases fonts.len(),
{
    if fonts.len() == 0 {
        Seq::empty()
    } else {
        (if fonts[0].entries@.len() > 0 {
            font_json(fonts[0]) + ","@
        } else {
            Seq::<char>::empty()
        }) + fonts_json_raw(fonts.drop_first())
    }
}

/// The whole payload. The writer always drops the last character of the
/// accumulated member list: the trailing comma when some font file had
/// entries, and the opening brace itself when none had.
pub open spec fn font_files_json(fonts: Seq<FontFile>) -> Seq<char> {
    let inner = "{"@ + fonts_json_raw(fonts);
    "{\"version\": 23,\"fontFiles\":"@ + inner.take(inner.len() - 1) + "}}"@
}

proof fn lemma_entries_json_push(entries: Seq<FontEntry>, e: FontEntry, modified_at: u64)
    ensures
        entries_json(entries.push(e), modified_at) == if entries.len() == 0 {
            entry_json(e, modified_at)
        } else {
            entries_json(entries, modified_at) + ","@ + entry_json(e, modified_at)
        },
    decreases entries.len(),
{
    let p = entries.push(e);
    if entries.len() == 0 {
        assert(p.len() == 1);
        assert(p[0] == e);
    } else {
        assert(p[0] == entries[0]);
        assert(p.drop_first() =~= entries.drop_first().push(e));
        lemma_entries_json_push(entries.drop_first(), e, modified_at);
        if entries.len() > 1 {
            assert(entries_json(p, modified_at) =~= entries_json(entries, modified_at) + ","@
                + entry_json(e, modified_at));
        }
    }
}

proof fn lemma_fonts_json_raw_push(fonts: Seq<FontFile>, f: FontFile)
    ensures
        fonts_json_raw(fonts.push(f)) == fonts_json_raw(fonts) + (if f.entries@.len() > 0 {
            font_json(f) + ","@
        } else {
            Seq::<char>::empty()
        }),
    decreases fonts.len(),
{
    let p = fonts.push(f);
    let part = if f.entries@.len() > 0 {
        font_json(f) + ","@
    } else {
        Seq::<char>::empty()
    };
    if fonts.len() == 0 {
        assert(p.len() == 1);
        assert(p[0] == f);
        assert(p.drop_first() =~= Seq::<FontFile>::empty());
        reveal_with_fuel(fonts_json_raw, 2);
        assert(fonts_json_raw(p) =~= fonts_json_raw(fonts) + part);
    } else {
        assert(p[0] == fonts[0]);
        assert(p.drop_first() =~= fonts.drop_first().push(f));
        lemma_fonts_json_raw_push(fonts.drop_first(), f);
        assert(fonts_json_raw(p) =~= fonts_json_raw(fonts) + part);
    }
}

fn push_entry_json(out: &mut String, e: &FontEntry, modified_at: u64)
    ensures
        final(out)@ == old(out)@ + entry_json(*e, modified_at),
{
    let ghost orig: Seq<char> = out@;
    out.append("{\"postscript\": \"");
    out.append(e.postscript.as_str());
    out.append("\",\"family\": \"");
    out.append(e.family.as_str());
    out.append("\",\"id\": \"");
    out.append(e.id.as_str());
    out.append("\",\"style\": \"");
    out.append(e.style.as_str());
    out.append("\",\"weight\": ");
    let weight = u64_to_dec(e.weight as u64);
    out.append(weight.as_str());
    out.append(",\"stretch\": ");
    let stretch = u64_to_dec(e.stretch as u64);
    out.append(stretch.as_str());
    out.append(",\"italic\": ");
    out.append(bool_to_str(e.italic));
    out.append(",\"modified_at\": ");
    let modified = u64_to_dec(modified_at);
    out.append(modified.as_str());
    out.append(",\"user_installed\": true}");
    proof {
        assert(out@ =~= orig + entry_json(*e, modified_at));
    }
}

fn push_entries_json(out: &mut String, entries: &Vec<FontEntry>, modified_at: u64)
    ensures
        final(out)@ == old(out)@ + entries_json(entries@, modified_at),
{
    let ghost orig: Seq<char> = out@;
    let mut k: usize = 0;
    while k < entries.len()
        invariant
            k <= entries@.len(),
            out@ == orig + entries_json(entries@.take(k as int), modified_at),
        decreases entries@.len() - k,
    {
        if k > 0 {
            out.append(",");
        }
        push_entry_json(out, &entries[k], modified_at);
        proof {
            assert(entries@.take(k as int).push(entries@[k as int]) =~= entries@.take(k + 1));
            lemma_entries_json_push(entries@.take(k as int), entries@[k as int], modified_at);
            assert(out@ =~= orig + entries_json(entries@.take(k + 1), modified_at));
        }
        k += 1;
    }
    proof {
        assert(entries@.take(entries@.len() as int) =~= entries@);
    }
}

/// Writes the whole payload, exactly as `font_files_json` describes it.
pub fn build_font_files_json(fonts: &Vec<FontFile>) -> (s: String)
    ensures
        s@ == font_files_json(fonts@),
{
    let mut body = String::from_str("{");
    let mut k: usize = 0;
    while k < fonts.len()
        invariant
            k <= fonts@.len(),
            body@ == "{"@ + fonts_json_raw(fonts@.take(k as int)),
        decreases fonts@.len() - k,
    {
        let f = &fonts[k];
        if f.entries.len() > 0 {
            body.append("\"");
            body.append(f.path.as_str());
            body.append("\":[");
            push_entries_json(&mut body, &f.entries, f.modified_at);
            body.append("]");
            body.append(",");
        }
        proof {
            assert(fonts@.take(k as int).push(fonts@[k as int]) =~= fonts@.take(k + 1));
            lemma_fonts_json_raw_push(fonts@.take(k as int), fonts@[k as int]);
            assert(body@ =~= "{"@ + fonts_json_raw(fonts@.take(k + 1)));
        }
        k += 1;
    }
    proof {
        assert(fonts@.take(fonts@.len() as int) =~= fonts@);
        reveal_strlit("{");
    }
    let body_len = body.as_str().unicode_len();
    let trimmed = body.as_str().substring_char(0, body_len - 1);
    let mut s = String::from_str("{\"version\": 23,\"fontFiles\":");
    s.append(trimmed);
    s.append("}}");
    proof {
        assert(s@ =~= font_files_json(fonts@));
    }
    s
}

/// Builds the font-files response: status 200, the CORS headers for the
/// trusted origin, a JSON content type, the body's exact byte length, and
/// the payload itself as the body.
pub fn font_files_response(fonts: &Vec<FontFile>) -> (r: Response)
    ensures
        r.status == 200,
        r.body@ == encode_utf8(font_files_json(fonts@)),
        r.headers@.len() == 4,
        r.headers@[0].0@ == "Access-Control-Allow-Origin"@,
        r.headers@[0].1@ == trusted_origin(),
        r.headers@[1].0@ == "Access-Control-Allow-Private-Network"@,
        r.headers@[1].1@ == "true"@,
        r.headers@[2].0@ == "Content-Type"@,
        r.headers@[2].1@ == "application/json"@,
        r.headers@[3].0@ == "Content-Length"@,
        r.headers@[3].1@ == dec_str(r.body@.len()),
{
    let json = build_font_files_json(fonts);
    let body = json.as_str().as_bytes_vec();
    let length = u64_to_dec(body.len() as u64);
    let mut headers: Vec<(String, String)> = Vec::new();
    headers.push(
        (String::from_str("Access-Control-Allow-Origin"), String::from_str(trusted_origin_str())),
    );
    headers.push((String::from_str("Access-Control-Allow-Private-Network"), String::from_str("true")));
    headers.push((String::from_str("Content-Type"), String::from_str("application/json")));
    headers.push((String::from_str("Content-Length"), length));
    Response { status: 200, headers, body }
}

/// The route of the font-files endpoint.
pub fn init() -> (r: Route)
    ensures
        r.method == HttpMethod::Get,
        r.path@ == "/figma/font-files"@,
        r.handler == HandlerRef::FontFiles,
{
    Route {
        method: HttpMethod::Get,
        path: String::from_str("/figma/font-files"),
        handler: HandlerRef::FontFiles,
    }
}

} // verus!
