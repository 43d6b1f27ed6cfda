use vstd::prelude::*;
use vstd::string::StringExecFns;

use crate::extract::{extract, spec_extract};
use crate::parse::{ftl_parse, parse_ftl};
use crate::render::{join_upto, join_with, render, spec_render};

verus! {

/// A fetched bundle: the designated main locale and the raw resource text of
/// every locale, in a fixed order.
pub struct Bundle {
    pub main: String,
    pub langs: Vec<(String, String)>,
}

/// The fatal errors of the schema pipeline: the main locale is absent from
/// the locale map, or its text is not valid under the resource grammar.
#[derive(Clone, Copy, Debug, PartialEq, Eq, Structural)]
pub enum BuildError {
    MissingMainLocale,
    Parse,
}

/// The constant runtime-binding preamble: it describes how to obtain a
/// callable translator for a locale, falling back to the raw message id when
/// a message is absent or has no value. It is not derived from the data.
pub open spec fn spec_preamble() -> Seq<char> {
    "import { FluentBundle, FluentResource } from '@fluent/bundle'\n\nexport interface Lang {\n    <K extends keyof LocalizedMessage>(\n    id: K,\n    ...params: LocalizedMessage[K]\n    ): string\n}\n\nexport function createLang(locale: keyof typeof langs): Lang {\n    const bundle = new FluentBundle(locale)\n    const resource = new FluentResource(langs[locale])\n    bundle.addResource(resource)\n    return (id, ...[params]) => {\n    const message = bundle.getMessage(id)\n    if (!message || !message.value) {\n        return id\n    }\n    return bundle.formatPattern(message.value, params)\n    }\n}"@
}

/// The model of a locale map: each locale id paired with its raw resource
/// text, in order.
pub open spec fn langs_view(v: Vec<(String, String)>) -> Seq<(Seq<char>, Seq<char>)> {
    Seq::new(v@.len(), |i: int| (v@[i].0@, v@[i].1@))
}

/// One locale-table entry: the quoted locale id mapped to its raw text,
/// embedded verbatim.
pub open spec fn spec_locale_entry(locale: Seq<char>, text: Seq<char>) -> Seq<char> {
    "'"@ + locale + "': `"@ + text + "`"@
}

/// The locale table: one entry per locale of the map, in order.
pub open spec fn spec_locale_table(pairs: Seq<(Seq<char>, Seq<char>)>) -> Seq<char> {
    "export const langs = {\n  "@ + join_with(
        pairs.map_values(|p: (Seq<char>, Seq<char>)| spec_locale_entry(p.0, p.1)),
        ",\n  "@,
    ) + "\n} as const"@
}

/// The whole output document: the constant preamble, the schema text and
/// the locale table, in fixed order.
pub open spec fn spec_compose(schema: Seq<char>, pairs: Seq<(Seq<char>, Seq<char>)>) -> Seq<char> {
    spec_preamble() + "\n\n"@ + schema + "\n\n"@ + spec_locale_table(pairs)
}

/// The raw text of the first locale with the given id, scanning from
/// position `i`.
pub open spec fn spec_find(pairs: Seq<(Seq<char>, Seq<char>)>, key: Seq<char>, i: int) -> Option<
    Seq<char>,
>
    decreases pairs.len() - i,
{
    if i < 0 || i >= pairs.len() {
        None
    } else if pairs[i].0 == key {
        Some(pairs[i].1)
    } else {
        spec_find(pairs, key, i + 1)
    }
}

/// The raw text of the first locale with the given id, if any.
pub open spec fn spec_lookup(pairs: Seq<(Seq<char>, Seq<char>)>, key: Seq<char>) -> Option<
    Seq<char>,
> {
    spec_find(pairs, key, 0)
}

/// Finds the raw text of the first locale with the given id.
pub fn find_locale<'a>(langs: &'a Vec<(String, String)>, key: &String) -> (r: Option<&'a String>)
    ensures
        match r {
            Some(text) => spec_lookup(langs_view(*langs), key@) == Some(text@),
            None => spec_lookup(langs_view(*langs), key@) is None,
        },
{
    let n = langs.len();
    let mut i: usize = 0;
    while i < n
        invariant
            n == langs@.len(),
            i <= n,
            spec_lookup(langs_view(*langs), key@) == spec_find(langs_view(*langs), key@, i as int),
        decreases n - i,
    {
        if langs[i].0.eq(key) {
            proof {
                assert(langs_view(*langs)[i as int].0 == key@);
            }
            return Some(&langs[i].1);
        }
        proof {
            assert(langs_view(*langs)[i as int].0 != key@);
        }
        i += 1;
    }
    None
}

/// Appends one locale-table entry.
fn append_locale_entry(out: &mut String, locale: &String, text: &String)
    ensures
        final(out)@ == old(out)@ + spec_locale_entry(locale@, text@),
{
    let ghost base = out@;
    out.append("'");
    out.append(locale.as_str());
    out.append("': `");
    out.append(text.as_str());
    out.append("`");
    proof {
        assert(out@ =~= base + spec_locale_entry(locale@, text@));
    }
}

/// Merges the generated schema text, the fixed runtime-binding preamble and
/// the raw per-locale text into one output document: the preamble, then the
/// schema, then a constant table with one entry per locale of the map, its
/// raw text embedded byte-for-byte.
pub fn compose(schema: &str, langs: &Vec<(String, String)>) -> (r: String)
    ensures
        r@ == spec_compose(schema@, langs_view(*langs)),
{
    let ghost entries = langs_view(*langs).map_values(
        |p: (Seq<char>, Seq<char>)| spec_locale_entry(p.0, p.1),
    );
    let mut out = String::from_str(
        "import { FluentBundle, FluentResource } from '@fluent/bundle'\n\nexport interface Lang {\n    <K extends keyof LocalizedMessage>(\n    id: K,\n    ...params: LocalizedMessage[K]\n    ): string\n}\n\nexport function createLang(locale: keyof typeof langs): Lang {\n    const bundle = new FluentBundle(locale)\n    const resource = new FluentResource(langs[locale])\n    bundle.addResource(resource)\n    return (id, ...[params]) => {\n    const message = bundle.getMessage(id)\n    if (!message || !message.value) {\n        return id\n    }\n    return bundle.formatPattern(message.value, params)\n    }\n}",
    );
    out.append("\n\n");
    out.append(schema);
    out.append("\n\n");
    out.append("export const langs = {\n  ");
    let ghost head = out@;
    let n = langs.len();
    let mut i: usize = 0;
    while i < n
        invariant
            n == langs@.len(),
            i <= n,
            entries == langs_view(*langs).map_values(
                |p: (Seq<char>, Seq<char>)| spec_locale_entry(p.0, p.1),
            ),
            out@ == head + join_upto(entries, ",\n  "@, i as int),
        decreases n - i,
    {
        if i > 0 {
            out.append(",\n  ");
        }
        append_locale_entry(&mut out, &langs[i].0, &langs[i].1);
        proof {
            assert(entries[i as int] == spec_locale_entry(
                langs_view(*langs)[i as int].0,
                langs_view(*langs)[i as int].1,
            ));
            assert(out@ =~= head + join_upto(entries, ",\n  "@, i + 1));
        }
        i += 1;
    }
    out.append("\n} as const");
    proof {
        assert(out@ =~= spec_compose(schema@, langs_view(*langs)));
    }
    out
}

/// Builds the whole output document for a bundle: the schema is derived from
/// the main locale's text alone, and the locale table embeds the raw text of
/// every locale. Fails when the main locale is absent from the locale map,
/// or when its text is not valid under the resource grammar; no document is
/// produced then.
pub fn build_output(bundle: &Bundle) -> (r: Result<String, BuildError>)
    ensures
        spec_lookup(langs_view(bundle.langs), bundle.main@) is None ==> r == Err::<
            String,
            BuildError,
        >(BuildError::MissingMainLocale),
        spec_lookup(langs_view(bundle.langs), bundle.main@) matches Some(text) ==> {
            &&& ftl_parse(text) is None ==> r == Err::<String, BuildError>(BuildError::Parse)
            &&& ftl_parse(text) matches Some(tree) ==> r matches Ok(out) && out@ == spec_compose(
                spec_render(spec_extract(tree)),
                langs_view(bundle.langs),
            )
        },
{
    match find_locale(&bundle.langs, &bundle.main) {
        None => Err(BuildError::MissingMainLocale),
        Some(text) => match parse_ftl(text.as_str()) {
            None => Err(BuildError::Parse),
            Some(tree) => {
                let records = extract(&tree);
                let schema = render(&records);
                Ok(compose(schema.as_str(), &bundle.langs))
            },
        },
    }
}

} // verus!
