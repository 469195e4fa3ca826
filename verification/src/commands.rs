//! What the bot's commands compute: the greeting, the addresses at which the
//! content service is asked, and the card on which an entry is shown.

use crate::catalog::{Fumo, FumoView};
use vstd::prelude::*;
use vstd::string::StringExecFns;

verus! {

/// The greeting: addressed to `who` in the name of `author`, or to everybody
/// where nobody is named.
pub open spec fn greeting(who: Option<Seq<char>>, author: Seq<char>) -> Seq<char> {
    match who {
        Some(name) => "Hello "@ + name + "! "@ + author + " is greeting you"@,
        None => "Hello chat how you doin!"@,
    }
}

/// Words the greeting that `author` sends to `who`.
pub fn hello(who: Option<&String>, author: &String) -> (r: String)
    ensures
        r@ == greeting(
            match who {
                Some(name) => Some(name@),
                None => None,
            },
            author@,
        ),
{
    match who {
        Some(name) => {
            let mut t = String::from_str("Hello ");
            t.append(name.as_str());
            t.append("! ");
            t.append(author.as_str());
            t.append(" is greeting you");
            t
        },
        None => String::from_str("Hello chat how you doin!"),
    }
}

/// The address at which the content service answers for the entry `id`.
pub fn fumo_url(endpoint: &String, id: &String) -> (r: String)
    ensures
        r@ == endpoint@ + "/fumo/"@ + id@,
{
    let mut t = endpoint.clone();
    t.append("/fumo/");
    t.append(id.as_str());
    t
}

/// The address at which the content service answers with an entry of its
/// own choice.
pub fn random_url(endpoint: &String) -> (r: String)
    ensures
        r@ == endpoint@ + "/random"@,
{
    let mut t = endpoint.clone();
    t.append("/random");
    t
}

/// The card on which an entry is shown.
#[derive(Clone, Debug, PartialEq, Eq)]
pub struct FumoEmbed {
    pub title: String,
    pub description: String,
    pub image: String,
    pub footer: String,
    pub author: String,
}

/// The mathematical content of a [`FumoEmbed`].
pub struct FumoEmbedView {
    pub title: Seq<char>,
    pub description: Seq<char>,
    pub image: Seq<char>,
    pub footer: Seq<char>,
    pub author: Seq<char>,
}

impl View for FumoEmbed {
    type V = FumoEmbedView;

    open spec fn view(&self) -> FumoEmbedView {
        FumoEmbedView {
            title: self.title@,
            description: self.description@,
            image: self.image@,
            footer: self.footer@,
            author: self.author@,
        }
    }
}

/// An annotation, or the words that stand in where there is none.
pub open spec fn or_words(field: Option<Seq<char>>, words: Seq<char>) -> Seq<char> {
    match field {
        Some(s) => s,
        None => words,
    }
}

/// The card of an entry: its number as the title, its caption as the
/// description, its image, its source in the footer and its credit as the
/// author, with fixed words wherever an annotation is missing.
pub open spec fn embed_of(fumo: FumoView) -> FumoEmbedView {
    FumoEmbedView {
        title: "Fumo #"@ + fumo.id,
        description: or_words(fumo.caption, "No caption"@),
        image: fumo.image_url,
        footer: "Source: "@ + or_words(fumo.source, "Unknown"@),
        author: or_words(fumo.credit, "Unknown"@),
    }
}

fn or_default(field: Option<String>, words: &str) -> (r: String)
    ensures
        r@ == or_words(
            match field {
                Some(s) => Some(s@),
                None => None,
            },
            words@,
        ),
{
    match field {
        Some(s) => s,
        None => String::from_str(words),
    }
}

/// Lays an entry out on its card.
pub fn generate_fumo_embed(fumo: Fumo) -> (r: FumoEmbed)
    ensures
        r@ == embed_of(fumo@),
{
    let mut title = String::from_str("Fumo #");
    title.append(fumo._id.as_str());
    let source = or_default(fumo.source, "Unknown");
    let mut footer = String::from_str("Source: ");
    footer.append(source.as_str());
    FumoEmbed {
        title,
        description: or_default(fumo.caption, "No caption"),
        image: fumo.image,
        footer,
        author: or_default(fumo.credit, "Unknown"),
    }
}

} // verus!
