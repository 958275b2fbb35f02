use btnify::button::Button;
use btnify::html_utils::{
    create_button_html, create_buttons_html, create_page_html, create_questions_array,
    sanitize_for_js_string,
};

#[test]
fn create_button_test() {
    let button = Button::create_basic_button("Count");
    let html = create_button_html(&button, 0);
    assert_eq!(html, "<button onclick=\"showMessage(0, null)\">Count</button>");
}

#[test]
fn create_buttons_test() {
    let count = Button::create_button_with_prompts(
        "Count",
        vec!["How much do you want to add?".to_string()],
    );
    let ping = Button::create_basic_button("Ping");
    let greet = Button::create_button_with_prompts(
        "Greet",
        vec!["Name?".to_string(), "Fav. Color?".to_string()],
    );

    let list = vec![count, ping, greet];

    let buttons_html = create_buttons_html(&list);

    assert_eq!(
        buttons_html,
        "<button onclick=\"showMessage(0, ['How much do you want to add?'])\">Count</button>\
         <button onclick=\"showMessage(1, null)\">Ping</button>\
         <button onclick=\"showMessage(2, ['Name?','Fav. Color?'])\">Greet</button>"
    );
}

#[test]
fn sanitize_escapes_every_delimiter() {
    let raw = "a\\b'c\"d\ne\rf\tg";
    let escaped = sanitize_for_js_string(raw);
    assert_eq!(escaped, "a\\\\b\\'c\\\"d\\ne\\rf\\tg");
}

#[test]
fn sanitize_leaves_plain_text_alone() {
    assert_eq!(sanitize_for_js_string("Name?"), "Name?");
    assert_eq!(sanitize_for_js_string(""), "");
}

#[test]
fn questions_array_quotes_and_joins() {
    let prompts = vec!["Name?".to_string(), "It's \"fun\"".to_string()];
    let array = create_questions_array(&prompts);
    assert_eq!(array, "['Name?','It\\'s \\\"fun\\\"']");
}

#[test]
fn escaped_prompt_reads_back_unchanged() {
    // A prompt holding a quote, a double quote, a backslash and a
    // newline must reach the page only in escaped form; undoing the
    // escapes reconstructs the prompt exactly.
    let prompt = "It's a \"mixed\\bag\"\nof text";
    let escaped = sanitize_for_js_string(prompt);
    for (i, c) in escaped.chars().enumerate() {
        if c == '\'' || c == '"' || c == '\n' || c == '\r' || c == '\t' {
            let before: Vec<char> = escaped.chars().take(i).collect();
            assert_eq!(before.last(), Some(&'\\'), "raw delimiter left unescaped");
        }
    }
    let mut read_back = String::new();
    let mut chars = escaped.chars();
    while let Some(c) = chars.next() {
        if c == '\\' {
            match chars.next() {
                Some('n') => read_back.push('\n'),
                Some('r') => read_back.push('\r'),
                Some('t') => read_back.push('\t'),
                Some(other) => read_back.push(other),
                None => panic!("escape introducer at end of literal"),
            }
        } else {
            read_back.push(c);
        }
    }
    assert_eq!(read_back, prompt);
}

#[test]
fn page_renders_identically_twice() {
    let buttons = vec![
        Button::create_basic_button("Ping"),
        Button::create_button_with_prompts("Greet", vec!["Name?".to_string()]),
        Button::create_button_with_state("Count"),
    ];
    let first = create_page_html(&buttons);
    let second = create_page_html(&buttons);
    assert_eq!(first.as_bytes(), second.as_bytes());
}

#[test]
fn page_embeds_controls_in_order() {
    let buttons = vec![
        Button::create_basic_button("Ping"),
        Button::create_button_with_state_and_prompts("Add", vec!["How much?".to_string()]),
    ];
    let page = create_page_html(&buttons);
    assert!(page.starts_with("<!DOCTYPE html>"));
    assert!(page.ends_with("</html>"));
    assert!(page.contains(
        "<button onclick=\"showMessage(0, null)\">Ping</button>\
         <button onclick=\"showMessage(1, ['How much?'])\">Add</button>"
    ));
    assert!(page.contains("postData(\"/\", { id, answers })"));
}
