use std::borrow::Cow;

use kingbase_types::sql_compat::{rewrite_oracle_params, rewrite_query, rewrite_question_params, CompatibleMode};

#[test]
fn rewrites_question_params() {
    assert_eq!(
        rewrite_question_params("select * from t where id = ?").as_ref(),
        "select * from t where id = $1"
    );
    assert_eq!(
        rewrite_question_params("select * from t where a = ? and b = ?").as_ref(),
        "select * from t where a = $1 and b = $2"
    );
}

#[test]
fn skips_quoted_text_and_comments() {
    assert_eq!(
        rewrite_question_params("select '?' as x, col = ?").as_ref(),
        "select '?' as x, col = $1"
    );
    assert_eq!(
        rewrite_question_params("select `?` from t where id = ?").as_ref(),
        "select `?` from t where id = $1"
    );
    assert_eq!(
        rewrite_question_params("select ? /* ? */ -- ?\n and ?").as_ref(),
        "select $1 /* ? */ -- ?\n and $2"
    );
    assert_eq!(
        rewrite_question_params("select ? # ?\n and ?").as_ref(),
        "select $1 # ?\n and $2"
    );
}

#[test]
fn handles_escaped_question_mark() {
    assert_eq!(rewrite_question_params("select ??, ?").as_ref(), "select ?, $1");
}

#[test]
fn skips_dollar_quotes() {
    assert_eq!(
        rewrite_question_params("select $$?$$, $tag$?$tag$, ?").as_ref(),
        "select $$?$$, $tag$?$tag$, $1"
    );
}

#[test]
fn rewrites_oracle_positional_params() {
    assert_eq!(
        rewrite_oracle_params("select * from t where a = :1 and b = :12").as_ref(),
        "select * from t where a = $1 and b = $12"
    );
    assert_eq!(
        rewrite_oracle_params("select :2, :1 from dual").as_ref(),
        "select $2, $1 from dual"
    );
}

#[test]
fn rewrites_oracle_named_and_jdbc_params() {
    assert_eq!(
        rewrite_oracle_params("select :id, :status, :id from dual").as_ref(),
        "select $1, $2, $1 from dual"
    );
    assert_eq!(
        rewrite_oracle_params("select ?, ?, ?? from dual").as_ref(),
        "select $1, $2, ? from dual"
    );
    assert_eq!(
        rewrite_oracle_params("select :2, :name, ?, :name, :1 from dual").as_ref(),
        "select $2, $3, $4, $3, $1 from dual"
    );
}

#[test]
fn skips_non_oracle_bind_syntax() {
    assert_eq!(
        rewrite_oracle_params("select ':1', \"c:2\" from t -- :3\nwhere id = :4 /* :5 */").as_ref(),
        "select ':1', \"c:2\" from t -- :3\nwhere id = $4 /* :5 */"
    );
    assert_eq!(
        rewrite_oracle_params("select $$:1$$, $tag$:2$tag$, :3").as_ref(),
        "select $$:1$$, $tag$:2$tag$, $3"
    );
    assert_eq!(
        rewrite_oracle_params("select value::text, :NEW.id, :OLD.id, :=, :0").as_ref(),
        "select value::text, :NEW.id, :OLD.id, :=, :0"
    );
}

#[test]
fn dispatches_mode_specific_parameter_rewrites() {
    assert_eq!(rewrite_query(CompatibleMode::Pg, "select ?").as_ref(), "select ?");
    assert_eq!(rewrite_query(CompatibleMode::Mysql, "select ?").as_ref(), "select $1");
    assert_eq!(rewrite_query(CompatibleMode::Oracle, "select :1").as_ref(), "select $1");
    assert_eq!(rewrite_query(CompatibleMode::SqlServer, "select ?").as_ref(), "select $1");
}

#[test]
fn question_marks_inside_block_comments_stay() {
    assert_eq!(rewrite_question_params("/* ? */ ?").as_ref(), "/* ? */ $1");
}

#[test]
fn oracle_rewrite_keeps_text_without_binds() {
    assert_eq!(rewrite_oracle_params("select 1 from dual").as_ref(), "select 1 from dual");
}

#[test]
fn queries_without_parameters_come_back_borrowed() {
    assert!(matches!(rewrite_question_params("select 'a?' from t"), Cow::Borrowed(_)));
    assert!(matches!(rewrite_question_params("select ?"), Cow::Owned(_)));
    assert!(matches!(rewrite_oracle_params("select 1 from dual"), Cow::Borrowed(_)));
    assert!(matches!(rewrite_oracle_params("select :id from dual"), Cow::Owned(_)));
    assert!(matches!(rewrite_query(CompatibleMode::Pg, "select ?"), Cow::Borrowed(_)));
    assert!(matches!(rewrite_query(CompatibleMode::Mysql, "select ??"), Cow::Owned(_)));
}
