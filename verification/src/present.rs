//! The card that shows one Pal: its fields, their labels, and the links to
//! the wiki.

use crate::model::{Pal, PalView, Suitability, SuitabilityView};
use crate::text::{decimal, decimal_string, join, joined, replace_spaces, underscored};
use inflector::Inflector;
use vstd::prelude::*;

verus! {

/// The text in title case, as the `Inflector` crate writes it.
pub uninterp spec fn title_cased(text: Seq<char>) -> Seq<char>;

/// Writes `text` in title case.
///
/// Trusted: `to_title_case` of the `Inflector` crate computes its result from
/// the characters of the text alone.
#[verifier::external_body]
fn title_case(text: &str) -> (r: String)
    ensures
        r@ == title_cased(text@),
{
    text.to_title_case()
}

/// The address of the wiki page of `title`: the wiki, then the title with an
/// underscore for each space.
pub open spec fn wiki_address(title: Seq<char>) -> Seq<char> {
    "https://palworld.fandom.com/wiki/"@ + underscored(title)
}

/// The markdown link to the wiki page of `title`: the title as the visible
/// text, then the address of its page.
pub open spec fn wiki_link(title: Seq<char>) -> Seq<char> {
    "["@ + title + "]("@ + wiki_address(title) + ")"@
}

/// The links to the wiki pages of the names, each name put in title case.
pub open spec fn wiki_links(names: Seq<Seq<char>>) -> Seq<Seq<char>> {
    names.map_values(|name: Seq<char>| wiki_link(title_cased(name)))
}

/// The elements of a Pal, as links with a comma between them.
pub open spec fn types_text(types: Seq<Seq<char>>) -> Seq<char> {
    joined(wiki_links(types), ", "@)
}

/// One work suitability as a list item: the link to the kind of work, then
/// the level.
pub open spec fn suitability_line(suitability: SuitabilityView) -> Seq<char> {
    "* "@ + wiki_link(title_cased(suitability.type_field)) + " "@ + decimal(suitability.level)
}

/// The work suitabilities of a Pal, one list item to a line.
pub open spec fn suitabilities_text(suitabilities: Seq<SuitabilityView>) -> Seq<char> {
    joined(suitabilities.map_values(|s: SuitabilityView| suitability_line(s)), "\n"@)
}

/// One drop as a list item: the link to the item.
pub open spec fn drop_line(name: Seq<char>) -> Seq<char> {
    "* "@ + wiki_link(title_cased(name))
}

/// The drops of a Pal, one list item to a line.
pub open spec fn drops_text(drops: Seq<Seq<char>>) -> Seq<char> {
    joined(drops.map_values(|name: Seq<char>| drop_line(name)), "\n"@)
}

/// The number of a Pal as a link to its own wiki page.
pub open spec fn number_text(id: int, wiki: Seq<char>) -> Seq<char> {
    "[#"@ + decimal(id) + "]("@ + wiki + ")"@
}

/// The label over the elements: singular for exactly one.
pub open spec fn types_label_text(count: nat) -> Seq<char> {
    if count == 1 {
        "Type"@
    } else {
        "Types"@
    }
}

/// The label over the work suitabilities: singular for exactly one.
pub open spec fn suitability_label_text(count: nat) -> Seq<char> {
    if count == 1 {
        "Work Suitability"@
    } else {
        "Work Suitabilities"@
    }
}

/// One field of a card.
#[derive(Debug, Clone, PartialEq)]
pub struct EmbedField {
    pub name: String,
    pub value: String,
    pub inline: bool,
}

/// The card that shows a Pal.
#[derive(Debug, Clone, PartialEq)]
pub struct Embed {
    pub title: String,
    pub description: String,
    pub thumbnail: String,
    pub fields: Vec<EmbedField>,
}

/// A field of a card as texts.
pub struct EmbedFieldView {
    pub name: Seq<char>,
    pub value: Seq<char>,
    pub inline: bool,
}

/// A card as texts.
pub struct EmbedView {
    pub title: Seq<char>,
    pub description: Seq<char>,
    pub thumbnail: Seq<char>,
    pub fields: Seq<EmbedFieldView>,
}

impl View for EmbedField {
    type V = EmbedFieldView;

    open spec fn view(&self) -> EmbedFieldView {
        EmbedFieldView { name: self.name@, value: self.value@, inline: self.inline }
    }
}

impl View for Embed {
    type V = EmbedView;

    open spec fn view(&self) -> EmbedView {
        EmbedView {
            title: self.title@,
            description: self.description@,
            thumbnail: self.thumbnail@,
            fields: self.fields@.map_values(|field: EmbedField| field@),
        }
    }
}

/// The card of a Pal: its name as the title, its description, its wiki image
/// as the thumbnail, and five fields: the number, the elements, the partner
/// skill under its own name in title case, the work suitabilities, and the
/// drops. The number and the elements stand side by side.
pub open spec fn embed_of(pal: PalView) -> EmbedView {
    EmbedView {
        title: pal.name,
        description: pal.description,
        thumbnail: pal.image_wiki,
        fields: seq![
            EmbedFieldView { name: "Number"@, value: number_text(pal.id, pal.wiki), inline: true },
            EmbedFieldView {
                name: types_label_text(pal.types.len()),
                value: types_text(pal.types),
                inline: true,
            },
            EmbedFieldView {
                name: title_cased(pal.aura.name),
                value: pal.aura.description,
                inline: false,
            },
            EmbedFieldView {
                name: suitability_label_text(pal.suitability.len()),
                value: suitabilities_text(pal.suitability),
                inline: false,
            },
            EmbedFieldView { name: "Drops"@, value: drops_text(pal.drops), inline: false },
        ],
    }
}

/// The address of a link holds no space, whatever the title: nothing in it
/// is left for a client to encode.
pub proof fn lemma_link_address_has_no_space(title: Seq<char>)
    ensures
        !wiki_address(title).contains(' '),
{
    reveal_strlit("https://palworld.fandom.com/wiki/");
    let wiki = "https://palworld.fandom.com/wiki/"@;
    assert forall|i: int| 0 <= i < wiki_address(title).len() implies wiki_address(title)[i]
        != ' ' by {
        if i < wiki.len() {
            assert(wiki_address(title)[i] == wiki[i]);
        } else {
            assert(wiki_address(title)[i] == underscored(title)[i - wiki.len()]);
        }
    }
}

/// Formatting changes nothing in a name that is already in title case and
/// holds no space: the link shows the name as it is, and leads to the page of
/// that very name.
pub proof fn lemma_format_keeps_title_cased_name(name: Seq<char>)
    requires
        title_cased(name) == name,
        !name.contains(' '),
    ensures
        wiki_link(title_cased(name)) == "["@ + name + "]("@ + "https://palworld.fandom.com/wiki/"@
            + name + ")"@,
{
    assert forall|i: int| 0 <= i < name.len() implies name[i] != ' ' by {
        if name[i] == ' ' {
            assert(name.contains(' '));
        }
    }
    assert(underscored(name) =~= name);
    let wiki = "https://palworld.fandom.com/wiki/"@;
    assert("["@ + name + "]("@ + (wiki + name) + ")"@ =~= "["@ + name + "]("@ + wiki + name + ")"@);
}

/// The link to the wiki page of a title that is already in title case.
pub fn link_to(title: &str) -> (r: String)
    ensures
        r@ == wiki_link(title@),
{
    let mut r = String::from_str("[");
    r.append(title);
    r.append("](");
    r.append("https://palworld.fandom.com/wiki/");
    let page = replace_spaces(title);
    r.append(page.as_str());
    r.append(")");
    proof {
        let wiki = "https://palworld.fandom.com/wiki/"@;
        assert(r@ =~= "["@ + title@ + "]("@ + (wiki + underscored(title@)) + ")"@);
    }
    r
}

/// Formats a name into a wiki link: the name in title case, linked to its
/// page.
pub fn format_wiki(name: &str) -> (r: String)
    ensures
        r@ == wiki_link(title_cased(name@)),
{
    let title = title_case(name);
    link_to(title.as_str())
}

/// The elements of a Pal, as links with a comma between them.
pub fn format_types(types: &Vec<String>) -> (r: String)
    ensures
        r@ == types_text(types.deep_view()),
{
    let mut links: Vec<String> = Vec::new();
    let mut i: usize = 0;
    while i < types.len()
        invariant
            i <= types.len(),
            links.deep_view() == wiki_links(types.deep_view().take(i as int)),
        decreases types.len() - i,
    {
        let ghost before = links.deep_view();
        let link = format_wiki(types[i].as_str());
        links.push(link);
        proof {
            assert(links.deep_view() == before.push(link@));
            assert(wiki_links(types.deep_view().take(i + 1)) == wiki_links(
                types.deep_view().take(i as int),
            ).push(wiki_link(title_cased(types[i as int]@))));
        }
        i = i + 1;
    }
    assert(types.deep_view().take(types.len() as int) == types.deep_view());
    join(&links, ", ")
}

/// The work suitabilities of a Pal, one list item to a line.
pub fn format_suitabilities(suitabilities: &Vec<Suitability>) -> (r: String)
    ensures
        r@ == suitabilities_text(suitabilities@.map_values(|s: Suitability| s@)),
{
    let ghost all = suitabilities@.map_values(|s: Suitability| s@);
    let mut lines: Vec<String> = Vec::new();
    let mut i: usize = 0;
    while i < suitabilities.len()
        invariant
            i <= suitabilities.len(),
            all == suitabilities@.map_values(|s: Suitability| s@),
            lines.deep_view() == all.take(i as int).map_values(
                |s: SuitabilityView| suitability_line(s),
            ),
        decreases suitabilities.len() - i,
    {
        let ghost before = lines.deep_view();
        let mut line = String::from_str("* ");
        let link = format_wiki(suitabilities[i].type_field.as_str());
        line.append(link.as_str());
        line.append(" ");
        let level = decimal_string(suitabilities[i].level);
        line.append(level.as_str());
        lines.push(line);
        proof {
            assert(line@ == suitability_line(all[i as int]));
            assert(lines.deep_view() == before.push(line@));
            assert(all.take(i + 1).map_values(|s: SuitabilityView| suitability_line(s))
                == all.take(i as int).map_values(|s: SuitabilityView| suitability_line(s)).push(
                suitability_line(all[i as int]),
            ));
        }
        i = i + 1;
    }
    assert(all.take(suitabilities.len() as int) == all);
    join(&lines, "\n")
}

/// The drops of a Pal, one list item to a line.
pub fn format_drops(drops: &Vec<String>) -> (r: String)
    ensures
        r@ == drops_text(drops.deep_view()),
{
    let mut lines: Vec<String> = Vec::new();
    let mut i: usize = 0;
    while i < drops.len()
        invariant
            i <= drops.len(),
            lines.deep_view() == drops.deep_view().take(i as int).map_values(
                |name: Seq<char>| drop_line(name),
            ),
        decreases drops.len() - i,
    {
        let ghost before = lines.deep_view();
        let mut line = String::from_str("* ");
        let link = format_wiki(drops[i].as_str());
        line.append(link.as_str());
        lines.push(line);
        proof {
            assert(lines.deep_view() == before.push(line@));
            assert(drops.deep_view().take(i + 1).map_values(|name: Seq<char>| drop_line(name))
                == drops.deep_view().take(i as int).map_values(
                |name: Seq<char>| drop_line(name),
            ).push(drop_line(drops[i as int]@)));
        }
        i = i + 1;
    }
    assert(drops.deep_view().take(drops.len() as int) == drops.deep_view());
    join(&lines, "\n")
}

/// The number of a Pal as a link to its own wiki page.
pub fn format_number(id: i64, wiki: &str) -> (r: String)
    ensures
        r@ == number_text(id as int, wiki@),
{
    let mut r = String::from_str("[#");
    let number = decimal_string(id);
    r.append(number.as_str());
    r.append("](");
    r.append(wiki);
    r.append(")");
    r
}

/// The label over `count` elements.
pub fn types_label(count: usize) -> (label: &'static str)
    ensures
        label@ == types_label_text(count as nat),
{
    if count == 1 {
        "Type"
    } else {
        "Types"
    }
}

/// The label over `count` work suitabilities.
pub fn suitability_label(count: usize) -> (label: &'static str)
    ensures
        label@ == suitability_label_text(count as nat),
{
    if count == 1 {
        "Work Suitability"
    } else {
        "Work Suitabilities"
    }
}

/// Lays out the card of a Pal.
pub fn pal_embed(pal: &Pal) -> (embed: Embed)
    ensures
        embed@ == embed_of(pal@),
{
    let mut fields: Vec<EmbedField> = Vec::new();
    fields.push(
        EmbedField {
            name: String::from_str("Number"),
            value: format_number(pal.id, pal.wiki.as_str()),
            inline: true,
        },
    );
    fields.push(
        EmbedField {
            name: String::from_str(types_label(pal.types.len())),
            value: format_types(&pal.types),
            inline: true,
        },
    );
    fields.push(
        EmbedField {
            name: title_case(pal.aura.name.as_str()),
            value: pal.aura.description.clone(),
            inline: false,
        },
    );
    fields.push(
        EmbedField {
            name: String::from_str(suitability_label(pal.suitability.len())),
            value: format_suitabilities(&pal.suitability),
            inline: false,
        },
    );
    fields.push(
        EmbedField {
            name: String::from_str("Drops"),
            value: format_drops(&pal.drops),
            inline: false,
        },
    );
    let embed = Embed {
        title: pal.name.clone(),
        description: pal.description.clone(),
        thumbnail: pal.image_wiki.clone(),
        fields,
    };
    assert(embed@.fields == embed_of(pal@).fields);
    embed
}

} // verus!
