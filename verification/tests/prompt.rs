use markdown_translator::{create_prompt, lang_to_prompt, Lang};

const ALL: [Lang; 3] = [Lang::Ja, Lang::En, Lang::Zh];

fn expected(source: &str, target: &str, document: &str) -> String {
    let mut text = String::new();
    text.push_str("あなたは通訳者です。");
    text.push_str(source);
    text.push_str("で与えられたマークダウンの内容を");
    text.push_str(target);
    text.push_str("のマークダウンに翻訳してください。ただし、内容や言葉の言い回しは勝手に改変しないでください。");
    text.push_str("\n\n");
    text.push_str(document);
    text
}

#[test]
fn label_of_each_language() {
    assert_eq!(lang_to_prompt(Lang::Ja), "日本語");
    assert_eq!(lang_to_prompt(Lang::En), "英語");
    assert_eq!(lang_to_prompt(Lang::Zh), "中国語");
}

#[test]
fn labels_are_nonempty_and_distinct() {
    for a in ALL {
        assert!(!lang_to_prompt(a).is_empty());
        for b in ALL {
            assert_eq!(lang_to_prompt(a) == lang_to_prompt(b), a == b);
        }
    }
}

#[test]
fn japanese_to_english_title_and_hello() {
    let prompt = create_prompt("# Title\nHello", Lang::Ja, Lang::En);
    assert_eq!(
        prompt,
        "あなたは通訳者です。日本語で与えられたマークダウンの内容を英語のマークダウンに翻訳してください。ただし、内容や言葉の言い回しは勝手に改変しないでください。\n\n# Title\nHello"
    );
    assert!(prompt.starts_with("あなたは通訳者です。"));
    assert!(prompt.ends_with("\n\n# Title\nHello"));
    let source_at = prompt.find("日本語").unwrap();
    let target_at = prompt.find("英語").unwrap();
    assert!(source_at < target_at);
    assert_eq!(prompt.chars().count(), 92);
}

#[test]
fn english_to_chinese_names_other_labels() {
    let source = lang_to_prompt(Lang::En);
    let target = lang_to_prompt(Lang::Zh);
    assert_ne!(source, target);
    assert_ne!(
        (source.clone(), target.clone()),
        (lang_to_prompt(Lang::Ja), lang_to_prompt(Lang::En))
    );
    assert_ne!(source, lang_to_prompt(Lang::Ja));
    assert_ne!(target, lang_to_prompt(Lang::En));

    let prompt = create_prompt("# Title\nHello", Lang::En, Lang::Zh);
    assert_eq!(prompt, expected("英語", "中国語", "# Title\nHello"));
    assert!(!prompt.contains("日本語"));
    assert_ne!(prompt, create_prompt("# Title\nHello", Lang::Ja, Lang::En));
}

#[test]
fn every_pair_fills_the_same_template() {
    for source in ALL {
        for target in ALL {
            let prompt = create_prompt("text", source, target);
            assert_eq!(
                prompt,
                expected(&lang_to_prompt(source), &lang_to_prompt(target), "text")
            );
        }
    }
}

#[test]
fn distinct_pairs_give_distinct_instructions() {
    for a in ALL {
        for b in ALL {
            for c in ALL {
                for d in ALL {
                    let same = create_prompt("", a, b) == create_prompt("", c, d);
                    assert_eq!(same, a == c && b == d);
                }
            }
        }
    }
}

#[test]
fn source_may_equal_target() {
    let prompt = create_prompt("そのまま", Lang::Ja, Lang::Ja);
    assert_eq!(prompt, expected("日本語", "日本語", "そのまま"));
}

#[test]
fn document_is_the_tail_of_the_prompt() {
    let documents = [
        "",
        "plain",
        "# Title\nHello",
        "line one\n\nline two\n",
        "\n\nstarts with a blank line",
        "ends without newline",
        "* item\n* item\n\n```rust\nfn main() {}\n```\n",
        "| a | b |\n|---|---|\n| 1 | 2 |\n",
        "[link](https://example.org/?q=1&r=2) ![img](a.png) <b>html</b>",
        "braces {} {0} {{ }} and a backslash \\ and a quote \" and %s",
        "tabs\tand\r\ncarriage returns",
        "日本語の文書 🙂 中文 émoji",
        "   leading and trailing spaces   ",
    ];
    for document in documents {
        for source in ALL {
            for target in ALL {
                let prompt = create_prompt(document, source, target);
                assert!(prompt.ends_with(document));
                let head = prompt.len() - document.len();
                assert_eq!(&prompt[head..], document);
            }
        }
    }
}

#[test]
fn what_precedes_the_document_ignores_the_document() {
    let first = "# One\n\n* a\n* b\n";
    let second = "{}\n> quote with `code` and a much longer body\n";
    for source in ALL {
        for target in ALL {
            let p = create_prompt(first, source, target);
            let q = create_prompt(second, source, target);
            let head = create_prompt("", source, target);
            assert_eq!(&p[..p.len() - first.len()], head);
            assert_eq!(&q[..q.len() - second.len()], head);
            assert!(head.ends_with("。\n\n"));
            assert!(!head.ends_with("\n\n\n"));
            assert_ne!(p, q);
        }
    }
}

#[test]
fn empty_document_leaves_instruction_and_blank_line() {
    let prompt = create_prompt("", Lang::Zh, Lang::Ja);
    assert_eq!(prompt, expected("中国語", "日本語", ""));
    assert!(prompt.ends_with("\n\n"));
}

#[test]
fn long_document_is_kept_whole() {
    let mut document = String::new();
    for i in 0..20000 {
        document.push_str("## section ");
        document.push_str(&i.to_string());
        document.push_str("\n\nbody\n\n");
    }
    let prompt = create_prompt(&document, Lang::En, Lang::Ja);
    assert_eq!(prompt, expected("英語", "日本語", &document));
    assert_eq!(
        prompt.len(),
        expected("英語", "日本語", "").len() + document.len()
    );
}
