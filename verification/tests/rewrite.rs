use oneiromancer::rewrite::{rename, rewrite, substitute, whole_word_pattern};
use oneiromancer::{OneiromancerError, Variable};

fn pairs(log: &[(String, String)]) -> Vec<(&str, &str)> {
    log.iter().map(|(from, to)| (from.as_str(), to.as_str())).collect()
}

#[test]
fn pattern_wraps_the_name_in_word_boundaries() {
    assert_eq!(whole_word_pattern("main"), "\\bmain\\b");
    assert_eq!(whole_word_pattern(""), "\\b\\b");
}

#[test]
fn pattern_escapes_meta_characters() {
    assert_eq!(whole_word_pattern("a.b"), "\\ba\\.b\\b");
    assert_eq!(whole_word_pattern("x[0]"), "\\bx\\[0\\]\\b");
    assert_eq!(whole_word_pattern("p->q"), "\\bp\\->q\\b");
    assert_eq!(
        whole_word_pattern("\\.+*?()|[]{}^$#&-~"),
        "\\b\\\\\\.\\+\\*\\?\\(\\)\\|\\[\\]\\{\\}\\^\\$\\#\\&\\-\\~\\b"
    );
}

#[test]
fn pattern_leaves_other_characters_alone() {
    assert_eq!(whole_word_pattern("v_1 %/!\"<>é"), "\\bv_1 %/!\"<>é\\b");
}

#[test]
fn rewrite_renames_main_and_nothing_else() {
    let text = "int main() { printf(\"Hello, world!\"); }";
    let suggestions = [Variable::new("main", "entry_point")];
    let (rewritten, log) = rewrite(text, &suggestions).unwrap();
    assert_eq!(rewritten, "int entry_point() { printf(\"Hello, world!\"); }");
    assert_eq!(pairs(&log), vec![("main", "entry_point")]);
}

#[test]
fn rewrite_matches_whole_words_only() {
    let text = "int i; int big = i + i_count; for (i = 0; i < big; i++) index(i);";
    let suggestions = [Variable::new("i", "index")];
    let (rewritten, _) = rewrite(text, &suggestions).unwrap();
    assert_eq!(
        rewritten,
        "int index; int big = index + i_count; for (index = 0; index < big; index++) index(index);"
    );
}

#[test]
fn rewrite_applies_each_rename_to_the_text_the_one_before_left() {
    let suggestions = [Variable::new("a", "b"), Variable::new("b", "c")];
    let (rewritten, log) = rewrite("x = a + 1;", &suggestions).unwrap();
    assert_eq!(rewritten, "x = c + 1;");
    assert_eq!(pairs(&log), vec![("a", "b"), ("b", "c")]);
}

#[test]
fn rewrite_depends_on_the_order_of_the_renames() {
    let forward = [Variable::new("a", "b"), Variable::new("b", "c")];
    let backward = [Variable::new("b", "c"), Variable::new("a", "b")];
    assert_eq!(rewrite("a b", &forward).unwrap().0, "c c");
    assert_eq!(rewrite("a b", &backward).unwrap().0, "b c");
}

#[test]
fn rewrite_does_not_repair_a_rename_cycle() {
    let suggestions = [Variable::new("a", "b"), Variable::new("b", "a")];
    assert_eq!(rewrite("a b", &suggestions).unwrap().0, "a a");
}

#[test]
fn rewrite_with_no_renames_returns_the_text_unchanged() {
    let text = "int main() { printf(\"Hello, world!\"); }";
    let (rewritten, log) = rewrite(text, &[]).unwrap();
    assert_eq!(rewritten, text);
    assert!(log.is_empty());
    let (rewritten, log) = rewrite("", &[]).unwrap();
    assert_eq!(rewritten, "");
    assert!(log.is_empty());
}

#[test]
fn rewrite_in_two_steps_equals_rewrite_in_one() {
    let text = "v1 = v2 + v3; v3 = v1;";
    let first = [Variable::new("v1", "total"), Variable::new("v2", "v3")];
    let second = [Variable::new("v3", "step")];
    let all = [Variable::new("v1", "total"), Variable::new("v2", "v3"), Variable::new("v3", "step")];
    let (halfway, _) = rewrite(text, &first).unwrap();
    let (stepwise, _) = rewrite(&halfway, &second).unwrap();
    let (at_once, _) = rewrite(text, &all).unwrap();
    assert_eq!(stepwise, at_once);
    assert_eq!(at_once, "total = step + step; step = total;");
}

#[test]
fn rewrite_logs_renames_that_change_nothing() {
    let suggestions = [Variable::new("absent", "present")];
    let (rewritten, log) = rewrite("int x;", &suggestions).unwrap();
    assert_eq!(rewritten, "int x;");
    assert_eq!(pairs(&log), vec![("absent", "present")]);
}

#[test]
fn rewrite_renames_inside_literals_and_comments_too() {
    let suggestions = [Variable::new("n", "count")];
    let (rewritten, _) = rewrite("puts(\"n is\"); /* n */ n++;", &suggestions).unwrap();
    assert_eq!(rewritten, "puts(\"count is\"); /* count */ count++;");
}

#[test]
fn rewrite_takes_the_original_name_literally() {
    let suggestions = [Variable::new("a.b", "c")];
    let (rewritten, _) = rewrite("a.b axb", &suggestions).unwrap();
    assert_eq!(rewritten, "c axb");

    let suggestions = [Variable::new("v.*", "w")];
    let (rewritten, _) = rewrite("v1 v22 v", &suggestions).unwrap();
    assert_eq!(rewritten, "v1 v22 v");

    let suggestions = [Variable::new("(", "[")];
    let (rewritten, _) = rewrite("f(x) + (y)", &suggestions).unwrap();
    assert_eq!(rewritten, "f[x) + (y)");
}

#[test]
fn rewrite_inserts_a_new_name_with_a_dollar_sign_as_it_stands() {
    let suggestions = [Variable::new("v1", "$x")];
    let (rewritten, log) = rewrite("v1 = 0;", &suggestions).unwrap();
    assert_eq!(rewritten, "$x = 0;");
    assert_eq!(pairs(&log), vec![("v1", "$x")]);

    let suggestions = [Variable::new("cost", "$$cost")];
    let (rewritten, _) = rewrite("cost = 1;", &suggestions).unwrap();
    assert_eq!(rewritten, "$$cost = 1;");
}

#[test]
fn rewrite_never_reads_a_new_name_as_replacement_syntax() {
    let suggestions = [Variable::new("a", "${0}$0$1"), Variable::new("b", "\\$name")];
    let (rewritten, _) = rewrite("a + b", &suggestions).unwrap();
    assert_eq!(rewritten, "${0}$0$1 + \\$name");
    assert_eq!(rename("n", &Variable::new("n", "$n")).unwrap(), "$n");
}

#[test]
fn substitute_inserts_the_new_name_as_it_stands() {
    let outcome = substitute(regex::Regex::new("(\\w)1"), "v1 = 0;", "$1x");
    assert_eq!(outcome.unwrap(), "$1x = 0;");
}

#[test]
fn rename_replaces_every_occurrence() {
    let renamed = rename("a1 + a1 * a10", &Variable::new("a1", "x")).unwrap();
    assert_eq!(renamed, "x + x * a10");
}

#[test]
fn substitute_reports_a_pattern_that_did_not_compile() {
    let outcome = substitute(regex::Regex::new("("), "f(x)", "y");
    assert!(matches!(outcome, Err(OneiromancerError::PatternCompileFailed(_))));
}

#[test]
fn substitute_replaces_all_matches_of_a_compiled_pattern() {
    let outcome = substitute(regex::Regex::new("\\bx\\b"), "x = x + xx;", "y");
    assert_eq!(outcome.unwrap(), "y = y + xx;");
}

#[test]
fn rewrite_fails_on_a_name_too_long_to_compile() {
    let long_name = "a".repeat(4_000_000);
    let suggestions = [Variable::new("x", "y"), Variable::new(&long_name, "b")];
    let outcome = rewrite("x = 1;", &suggestions);
    assert!(matches!(outcome, Err(OneiromancerError::PatternCompileFailed(_))));
    let outcome = rename("x = 1;", &Variable::new(&long_name, "b"));
    assert!(matches!(outcome, Err(OneiromancerError::PatternCompileFailed(_))));
}
