//! Editing INI texts: one entry is set or added in a named section.
//!
//! A document is modelled as its sections in order, each with its name
//! (`None` for the general section) and its entries in order. Values are
//! taken literally: neither quotes nor backslashes are interpreted.

use vstd::prelude::*;

verus! {

/// Entries of a section, in order: key and value.
pub type Entries = Seq<(Seq<char>, Seq<char>)>;

/// Sections of a document, in order.
pub type Sections = Seq<(Option<Seq<char>>, Entries)>;

#[verifier::external_type_specification]
#[verifier::external_body]
pub struct ExIni(ini::Ini);

/// The sections that an INI document holds.
pub uninterp spec fn ini_contents(doc: ini::Ini) -> Sections;

/// The document read from a text with quotes and escapes taken literally,
/// or `None` where the text is not INI.
pub uninterp spec fn ini_parse_of(text: Seq<char>) -> Option<Sections>;

/// The message of the error met when reading a text that is not INI: its
/// line, its column and what was expected there.
pub uninterp spec fn ini_parse_error_of(text: Seq<char>) -> Seq<char>;

/// The text written for a document, without escaping and with `\n` line ends.
pub uninterp spec fn ini_text_of(sections: Sections) -> Seq<char>;

/// Index of the first section called `name`, if any.
pub open spec fn first_section(sections: Sections, name: Seq<char>) -> Option<int>
    decreases sections.len(),
{
    if sections.len() == 0 {
        None
    } else {
        match first_section(sections.drop_last(), name) {
            Some(i) => Some(i),
            None => if sections.last().0 == Some(name) {
                Some(sections.len() - 1)
            } else {
                None
            },
        }
    }
}

/// Entries with every entry under `key` replaced by one `key = value` at the end.
pub open spec fn entries_set(entries: Entries, key: Seq<char>, value: Seq<char>) -> Entries {
    entries.filter(|e: (Seq<char>, Seq<char>)| e.0 != key).push((key, value))
}

/// Entries with `key = value` added at the end, existing ones kept.
pub open spec fn entries_add(entries: Entries, key: Seq<char>, value: Seq<char>) -> Entries {
    entries.push((key, value))
}

/// The sections with the first section called `name` (created empty at the
/// end if there is none) having its entries changed by `edit`.
pub open spec fn edit_section(
    sections: Sections,
    name: Seq<char>,
    edit: spec_fn(Entries) -> Entries,
) -> Sections {
    match first_section(sections, name) {
        Some(i) => sections.update(i, (sections[i].0, edit(sections[i].1))),
        None => sections.push((Some(name), edit(Seq::empty()))),
    }
}

pub open spec fn sections_set(sections: Sections, name: Seq<char>, key: Seq<char>, value: Seq<char>) -> Sections {
    edit_section(sections, name, |e: Entries| entries_set(e, key, value))
}

pub open spec fn sections_add(sections: Sections, name: Seq<char>, key: Seq<char>, value: Seq<char>) -> Sections {
    edit_section(sections, name, |e: Entries| entries_add(e, key, value))
}

/// The text without a leading byte-order mark.
pub open spec fn without_bom(text: Seq<char>) -> Seq<char> {
    if text.len() > 0 && text[0] == '\u{feff}' {
        text.drop_first()
    } else {
        text
    }
}

/// The text of an INI document after `key = value` is set in `section`, or
/// `None` where the text is not INI.
pub open spec fn set_entry_spec(text: Seq<char>, section: Seq<char>, key: Seq<char>, value: Seq<char>) -> Option<Seq<char>> {
    match ini_parse_of(without_bom(text)) {
        Some(s) => Some(ini_text_of(sections_set(s, section, key, value))),
        None => None,
    }
}

/// The text of an INI document after `key = value` is added to `section`, or
/// `None` where the text is not INI.
pub open spec fn add_entry_spec(text: Seq<char>, section: Seq<char>, key: Seq<char>, value: Seq<char>) -> Option<Seq<char>> {
    match ini_parse_of(without_bom(text)) {
        Some(s) => Some(ini_text_of(sections_add(s, section, key, value))),
        None => None,
    }
}

/// Relies on `ini::Ini::load_from_str_opt` with quotes and escapes disabled;
/// the parse error is handed on as its message, which depends on the text
/// alone.
#[verifier::external_body]
fn parse(text: &str) -> (r: Result<ini::Ini, String>)
    ensures
        r matches Ok(doc) ==> ini_parse_of(text@) == Some(ini_contents(doc)),
        r is Err ==> ini_parse_of(text@) is None,
        r matches Err(m) ==> m@ == ini_parse_error_of(text@),
{
    let opt = ini::ParseOption { enabled_quote: false, enabled_escape: false, ..Default::default() };
    ini::Ini::load_from_str_opt(text, opt).map_err(|e| e.to_string())
}

/// Relies on `ini::SectionSetter::set`: the first section of that name (or a
/// new one at the end) loses every entry under `key` and gets `key = value`
/// at the end.
#[verifier::external_body]
fn set_in_section(doc: &mut ini::Ini, section: &str, key: &str, value: &str)
    ensures
        ini_contents(*final(doc)) == sections_set(ini_contents(*old(doc)), section@, key@, value@),
{
    doc.with_section(Some(section)).set(key, value);
}

/// Relies on `ini::SectionSetter::add`: the first section of that name (or a
/// new one at the end) gets `key = value` appended.
#[verifier::external_body]
fn add_in_section(doc: &mut ini::Ini, section: &str, key: &str, value: &str)
    ensures
        ini_contents(*final(doc)) == sections_add(ini_contents(*old(doc)), section@, key@, value@),
{
    doc.with_section(Some(section)).add(key, value);
}

/// Relies on `ini::Ini::write_to_opt` with no escaping and `\n` line ends,
/// into memory: keys and values are written as they are.
#[verifier::external_body]
fn to_text(doc: &ini::Ini) -> (r: String)
    ensures
        r@ == ini_text_of(ini_contents(*doc)),
{
    let mut buf: Vec<u8> = Vec::new();
    let opt = ini::WriteOption {
        escape_policy: ini::EscapePolicy::Nothing,
        line_separator: ini::LineSeparator::CR,
        ..Default::default()
    };
    let _ = doc.write_to_opt(&mut buf, opt);
    String::from_utf8_lossy(&buf).into_owned()
}

/// The text without a leading byte-order mark.
pub fn strip_bom(text: &str) -> (r: &str)
    ensures
        r@ == without_bom(text@),
{
    let n = text.unicode_len();
    if n > 0 && text.get_char(0) == '\u{feff}' {
        let rest = text.substring_char(1, n);
        assert(rest@ =~= text@.drop_first());
        rest
    } else {
        text
    }
}

/// Sets `key = value` in `section` of an INI text (a leading byte-order
/// mark is dropped), replacing any entries
/// under that key and creating the section if it is missing.
pub fn set_entry(text: &str, section: &str, key: &str, value: &str) -> (r: Result<String, String>)
    ensures
        r is Ok <==> set_entry_spec(text@, section@, key@, value@) is Some,
        r matches Err(e) ==> e@ == ini_parse_error_of(without_bom(text@)),
        r matches Ok(t) ==> Some(t@) == set_entry_spec(text@, section@, key@, value@),
{
    let mut doc = parse(strip_bom(text))?;
    set_in_section(&mut doc, section, key, value);
    Ok(to_text(&doc))
}

/// Adds `key = value` to `section` of an INI text (a leading byte-order mark
/// is dropped), keeping any entries under
/// that key and creating the section if it is missing.
pub fn add_entry(text: &str, section: &str, key: &str, value: &str) -> (r: Result<String, String>)
    ensures
        r is Ok <==> add_entry_spec(text@, section@, key@, value@) is Some,
        r matches Err(e) ==> e@ == ini_parse_error_of(without_bom(text@)),
        r matches Ok(t) ==> Some(t@) == add_entry_spec(text@, section@, key@, value@),
{
    let mut doc = parse(strip_bom(text))?;
    add_in_section(&mut doc, section, key, value);
    Ok(to_text(&doc))
}

/// Setting a key leaves it with exactly the new value in its section, while
/// adding it keeps the old entries and puts the new one after them; neither
/// leaves any other entry behind.
pub proof fn lemma_set_versus_add(sections: Sections, name: Seq<char>, key: Seq<char>, old_value: Seq<char>, value: Seq<char>)
    requires
        first_section(sections, name) is Some,
        sections[first_section(sections, name)->Some_0].1 == seq![(key, old_value)],
    ensures
        sections_set(sections, name, key, value)[first_section(sections, name)->Some_0].1
            == seq![(key, value)],
        sections_add(sections, name, key, value)[first_section(sections, name)->Some_0].1
            == seq![(key, old_value), (key, value)],
        sections_set(sections, name, key, value).len() == sections.len(),
        sections_add(sections, name, key, value).len() == sections.len(),
{
    let i = first_section(sections, name)->Some_0;
    lemma_first_section_in_range(sections, name);
    let e = sections[i].1;
    reveal_with_fuel(Seq::filter, 2);
    assert(e.drop_last() =~= Seq::<(Seq<char>, Seq<char>)>::empty());
    assert(e.filter(|x: (Seq<char>, Seq<char>)| x.0 != key) =~= Seq::<(Seq<char>, Seq<char>)>::empty());
    assert(entries_set(e, key, value) =~= seq![(key, value)]);
    assert(entries_add(e, key, value) =~= seq![(key, old_value), (key, value)]);
}

pub proof fn lemma_first_section_in_range(sections: Sections, name: Seq<char>)
    ensures
        first_section(sections, name) matches Some(i) ==> 0 <= i < sections.len()
            && sections[i].0 == Some(name),
    decreases sections.len(),
{
    if sections.len() > 0 {
        lemma_first_section_in_range(sections.drop_last(), name);
    }
}

} // verus!
