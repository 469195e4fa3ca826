use fumo_bot::catalog::{fumo_from_api, APIFumo, Fumo};
use fumo_bot::commands::{fumo_url, generate_fumo_embed, hello, random_url, FumoEmbed};
use fumo_bot::config::{is_listed, Config};

fn answer() -> APIFumo {
    APIFumo {
        _id: String::from("42"),
        caption: Some(String::from("a fumo on a shelf")),
        url: String::from("https://cdn.nosesisaid.com/42.png"),
        source: Some(String::from("https://example.org/post")),
        credit: Some(String::from("an artist")),
        featured: Some(String::from("Cirno")),
    }
}

#[test]
fn hello_greets_the_one_named() {
    assert_eq!(
        hello(Some(&String::from("Marisa")), &String::from("Reimu")),
        "Hello Marisa! Reimu is greeting you"
    );
    assert_eq!(hello(Some(&String::new()), &String::new()), "Hello !  is greeting you");
}

#[test]
fn hello_greets_everybody_where_nobody_is_named() {
    assert_eq!(hello(None, &String::from("Reimu")), "Hello chat how you doin!");
}

#[test]
fn addresses_of_the_content_service() {
    let endpoint = String::from("http://localhost:6969");
    assert_eq!(fumo_url(&endpoint, &String::from("42")), "http://localhost:6969/fumo/42");
    assert_eq!(fumo_url(&endpoint, &String::new()), "http://localhost:6969/fumo/");
    assert_eq!(random_url(&endpoint), "http://localhost:6969/random");
    assert_eq!(random_url(&String::new()), "/random");
}

#[test]
fn answer_of_the_service_becomes_an_entry() {
    assert_eq!(
        fumo_from_api(answer()),
        Fumo {
            _id: String::from("42"),
            caption: Some(String::from("a fumo on a shelf")),
            image: String::from("https://cdn.nosesisaid.com/42.png"),
            source: Some(String::from("https://example.org/post")),
            credit: Some(String::from("an artist")),
            featured: Some(String::from("Reimu")),
        }
    );
    let mut bare = answer();
    bare.featured = None;
    bare.caption = None;
    let entry = fumo_from_api(bare);
    assert_eq!(entry.featured, Some(String::from("Reimu")));
    assert_eq!(entry.caption, None);
}

#[test]
fn embed_of_an_annotated_entry() {
    assert_eq!(
        generate_fumo_embed(fumo_from_api(answer())),
        FumoEmbed {
            title: String::from("Fumo #42"),
            description: String::from("a fumo on a shelf"),
            image: String::from("https://cdn.nosesisaid.com/42.png"),
            footer: String::from("Source: https://example.org/post"),
            author: String::from("an artist"),
        }
    );
}

#[test]
fn embed_of_a_bare_entry() {
    let bare = Fumo {
        _id: String::from("7"),
        caption: None,
        image: String::from("https://cdn.nosesisaid.com/7.png"),
        source: None,
        credit: None,
        featured: None,
    };
    assert_eq!(
        generate_fumo_embed(bare),
        FumoEmbed {
            title: String::from("Fumo #7"),
            description: String::from("No caption"),
            image: String::from("https://cdn.nosesisaid.com/7.png"),
            footer: String::from("Source: Unknown"),
            author: String::from("Unknown"),
        }
    );
}

#[test]
fn curators_and_blacklist_are_looked_up() {
    let config = Config {
        channel_id: 1,
        bot_user_id: 2,
        curators: vec![10, 20, 30],
        blacklist: vec![40],
        fumo_api_endpoint: String::new(),
    };
    assert!(config.is_curator(10));
    assert!(config.is_curator(30));
    assert!(!config.is_curator(40));
    assert!(!config.is_curator(0));
    assert!(config.is_blacklisted(40));
    assert!(!config.is_blacklisted(10));
    assert!(!is_listed(&Vec::new(), 10));
    assert!(is_listed(&vec![10, 10], 10));
}
