//! Debug-style text for strings, variables and lists of them.

use vstd::prelude::*;
use vstd::string::StringExecFns;

verus! {

/// The debug form of a string, as the standard library's `Debug` for `str`
/// writes it: the text between double quotes, with the quote, the backslash
/// and the unprintable characters escaped.
pub uninterp spec fn debug_quoted(text: Seq<char>) -> Seq<char>;

/// Formats `text` with `{:?}`, which runs the standard library's
/// `<str as Debug>::fmt` into a fresh `String`.
///
/// Unproved. The contract gives what the formatter writes a name and so
/// claims that it depends on the characters of `text` alone; the escaping
/// rules themselves are stated nowhere.
#[verifier::external_body]
fn debug_quote(text: &str) -> (quoted: String)
    ensures
        quoted@ == debug_quoted(text@),
{
    format!("{:?}", text)
}

/// The items in order, with `separator` between each two neighbours.
pub open spec fn joined(items: Seq<Seq<char>>, separator: Seq<char>) -> Seq<char>
    decreases items.len(),
{
    if items.len() == 0 {
        Seq::empty()
    } else if items.len() == 1 {
        items[0]
    } else {
        joined(items.drop_last(), separator) + separator + items.last()
    }
}

/// A bracketed list: `[` and `]` around the items, which are separated by a
/// comma and a space.
pub open spec fn list_text(items: Seq<Seq<char>>) -> Seq<char> {
    "["@ + joined(items, ", "@) + "]"@
}

/// Writes already rendered items as a bracketed list.
pub fn render_list(items: &Vec<String>) -> (text: String)
    ensures
        text@ == list_text(items.deep_view()),
{
    let mut text = "[".to_owned();
    let mut i: usize = 0;
    while i < items.len()
        invariant
            i <= items.len(),
            text@ == "["@ + joined(items.deep_view().take(i as int), ", "@),
        decreases items.len() - i,
    {
        if i > 0 {
            text.append(", ");
        }
        text.append(items[i].as_str());
        proof {
            let upto = items.deep_view().take(i as int + 1);
            assert(upto.drop_last() =~= items.deep_view().take(i as int));
        }
        i += 1;
    }
    proof {
        assert(items.deep_view().take(items.len() as int) =~= items.deep_view());
    }
    text.append("]");
    text
}

/// A pair: `(` and `)` around the two parts, which are separated by a comma
/// and a space.
pub open spec fn pair_text(first: Seq<char>, second: Seq<char>) -> Seq<char> {
    "("@ + first + ", "@ + second + ")"@
}

/// Writes two already rendered parts as a pair.
pub fn render_pair(first: &str, second: &str) -> (text: String)
    ensures
        text@ == pair_text(first@, second@),
{
    let mut text = "(".to_owned();
    text.append(first);
    text.append(", ");
    text.append(second);
    text.append(")");
    text
}

/// An optional value: `Some(` and `)` around what is there, `None` for
/// what is absent.
pub open spec fn option_text(inner: Option<Seq<char>>) -> Seq<char> {
    match inner {
        Some(present) => "Some("@ + present + ")"@,
        None => "None"@,
    }
}

/// Writes an already rendered optional value.
pub fn render_option(inner: Option<&str>) -> (text: String)
    ensures
        text@ == option_text(inner.deep_view()),
{
    match inner {
        Some(present) => {
            let mut text = "Some(".to_owned();
            text.append(present);
            text.append(")");
            text
        },
        None => "None".to_owned(),
    }
}

/// The debug form of a list of strings: the bracketed list of their debug
/// forms.
pub open spec fn strings_text(items: Seq<Seq<char>>) -> Seq<char> {
    list_text(items.map_values(|item: Seq<char>| debug_quoted(item)))
}

/// Renders a list of strings in debug form.
pub fn debug_strings(items: &Vec<String>) -> (text: String)
    ensures
        text@ == strings_text(items.deep_view()),
{
    let mut quoted: Vec<String> = Vec::new();
    let mut i: usize = 0;
    while i < items.len()
        invariant
            i <= items.len(),
            quoted.len() == i,
            forall|j: int| 0 <= j < i ==> quoted[j]@ == debug_quoted(items[j]@),
        decreases items.len() - i,
    {
        quoted.push(debug_quote(items[i].as_str()));
        i += 1;
    }
    proof {
        assert(quoted.deep_view() =~= items.deep_view().map_values(
            |item: Seq<char>| debug_quoted(item),
        ));
    }
    render_list(&quoted)
}

/// The debug form of a variable: the pair of the debug forms of its name
/// and of its value.
pub open spec fn variable_text(variable: (Seq<char>, Seq<char>)) -> Seq<char> {
    pair_text(debug_quoted(variable.0), debug_quoted(variable.1))
}

/// Renders a variable in debug form.
pub fn debug_variable(variable: &(String, String)) -> (text: String)
    ensures
        text@ == variable_text(variable.deep_view()),
{
    let name = debug_quote(variable.0.as_str());
    let value = debug_quote(variable.1.as_str());
    render_pair(name.as_str(), value.as_str())
}

/// The debug form of a list of variables: the bracketed list of their debug
/// forms.
pub open spec fn variables_text(variables: Seq<(Seq<char>, Seq<char>)>) -> Seq<char> {
    list_text(variables.map_values(|variable: (Seq<char>, Seq<char>)| variable_text(variable)))
}

/// Renders a list of variables in debug form.
pub fn debug_variables(variables: &Vec<(String, String)>) -> (text: String)
    ensures
        text@ == variables_text(variables.deep_view()),
{
    let mut pairs: Vec<String> = Vec::new();
    let mut i: usize = 0;
    while i < variables.len()
        invariant
            i <= variables.len(),
            pairs.len() == i,
            forall|j: int| 0 <= j < i ==> pairs[j]@ == variable_text(variables[j].deep_view()),
        decreases variables.len() - i,
    {
        pairs.push(debug_variable(&variables[i]));
        i += 1;
    }
    proof {
        assert(pairs.deep_view() =~= variables.deep_view().map_values(
            |variable: (Seq<char>, Seq<char>)| variable_text(variable),
        ));
    }
    render_list(&pairs)
}

/// The debug form of a lookup's outcome: `Some` around the variable found,
/// or `None`.
pub open spec fn lookup_text(found: Option<(Seq<char>, Seq<char>)>) -> Seq<char> {
    option_text(
        match found {
            Some(variable) => Some(variable_text(variable)),
            None => None,
        },
    )
}

/// Renders the outcome of a lookup in debug form.
pub fn debug_lookup(found: Option<&(String, String)>) -> (text: String)
    ensures
        text@ == lookup_text(found.deep_view()),
{
    match found {
        Some(variable) => {
            let pair = debug_variable(variable);
            render_option(Some(pair.as_str()))
        },
        None => render_option(None),
    }
}

/// Whether `part` stands in `whole`, character after character, from
/// position `at` on.
pub open spec fn occurs_at(part: Seq<char>, whole: Seq<char>, at: int) -> bool {
    &&& 0 <= at
    &&& at + part.len() <= whole.len()
    &&& whole.subrange(at, at + part.len()) == part
}

/// Whether `part` stands somewhere in `whole`.
pub open spec fn occurs_in(part: Seq<char>, whole: Seq<char>) -> bool {
    exists|at: int| occurs_at(part, whole, at)
}

/// What stands in a text still stands in it when more text is put before
/// and after.
pub proof fn lemma_occurs_in_middle(
    part: Seq<char>,
    before: Seq<char>,
    middle: Seq<char>,
    after: Seq<char>,
)
    requires
        occurs_in(part, middle),
    ensures
        occurs_in(part, before + middle + after),
{
    let at = choose|at: int| occurs_at(part, middle, at);
    let whole = before + middle + after;
    assert(whole.subrange(before.len() + at, before.len() + at + part.len()) =~= middle.subrange(
        at,
        at + part.len(),
    ));
    assert(occurs_at(part, whole, before.len() + at));
}

/// Every text stands in itself.
pub proof fn lemma_occurs_in_itself(part: Seq<char>)
    ensures
        occurs_in(part, part),
{
    assert(part.subrange(0, part.len() as int) =~= part);
    assert(occurs_at(part, part, 0));
}

/// Each item stands in the joined text.
pub proof fn lemma_joined_shows_item(items: Seq<Seq<char>>, separator: Seq<char>, i: int)
    requires
        0 <= i < items.len(),
    ensures
        occurs_in(items[i], joined(items, separator)),
    decreases items.len(),
{
    if items.len() == 1 {
        lemma_occurs_in_itself(items[0]);
    } else {
        let front = joined(items.drop_last(), separator);
        if i == items.len() - 1 {
            lemma_occurs_in_itself(items[i]);
            lemma_occurs_in_middle(items[i], front + separator, items[i], Seq::empty());
        } else {
            lemma_joined_shows_item(items.drop_last(), separator, i);
            lemma_occurs_in_middle(items[i], Seq::empty(), front, separator + items.last());
            assert(Seq::empty() + front + (separator + items.last()) =~= front + separator
                + items.last());
        }
    }
}

/// Each item stands in the bracketed list.
pub proof fn lemma_list_shows_item(items: Seq<Seq<char>>, i: int)
    requires
        0 <= i < items.len(),
    ensures
        occurs_in(items[i], list_text(items)),
{
    lemma_joined_shows_item(items, ", "@, i);
    lemma_occurs_in_middle(items[i], "["@, joined(items, ", "@), "]"@);
}

/// The debug form of each string stands in the debug form of the list.
pub proof fn lemma_strings_text_shows_item(items: Seq<Seq<char>>, i: int)
    requires
        0 <= i < items.len(),
    ensures
        occurs_in(debug_quoted(items[i]), strings_text(items)),
{
    lemma_list_shows_item(items.map_values(|item: Seq<char>| debug_quoted(item)), i);
}

} // verus!
