use sentinel_bot::templates::{add_template, format_template_list, parse_templates, remove_templates, ReasonTemplate, TemplateError};

fn t(l: &str, r: &str) -> ReasonTemplate {
    ReasonTemplate { label: l.to_string(), reason: r.to_string() }
}

#[test]
fn adding_templates() {
    let ts = vec![t("Spam", "Repetition")];
    let r = add_template(&ts, "  Flood ", " Trop de messages ").unwrap();
    assert_eq!(r.len(), 2);
    assert_eq!(r[1].label, "Flood");
    assert_eq!(r[1].reason, "Trop de messages");
    assert_eq!(add_template(&ts, "spam", "x").unwrap_err(), TemplateError::Duplicate);
    assert_eq!(add_template(&ts, " ", "x").unwrap_err(), TemplateError::Empty);
    assert_eq!(add_template(&ts, "a|b", "x").unwrap_err(), TemplateError::LabelForbiddenChar);
    assert_eq!(add_template(&ts, "a", "x\ny").unwrap_err(), TemplateError::ReasonNewline);
}

#[test]
fn removing_templates() {
    let ts = vec![t("Spam", "a"), t("Flood", "b"), t("SPAM", "c")];
    let (kept, n) = remove_templates(&ts, "spam").unwrap();
    assert_eq!(n, 2);
    assert_eq!(kept.len(), 1);
    assert_eq!(kept[0].label, "Flood");
    assert_eq!(remove_templates(&ts, "none").unwrap_err(), TemplateError::NotFound);
    assert_eq!(remove_templates(&ts, "").unwrap_err(), TemplateError::Empty);
}

#[test]
fn parsing_skips_bad_lines() {
    let ts = parse_templates("A|B\nno separator\n |x\nC | D | E\n");
    assert_eq!(ts.len(), 2);
    assert_eq!(ts[1].label, "C");
    assert_eq!(ts[1].reason, "D | E");
}

#[test]
fn listing() {
    assert_eq!(format_template_list(&vec![t("A", "B"), t("C", "D")]), "1. **A** \u{2014} B\n2. **C** \u{2014} D");
}
