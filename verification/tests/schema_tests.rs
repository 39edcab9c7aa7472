use ytx_provision::schema::auth_statements;
use ytx_provision::schema::f_entry_table;
use ytx_provision::schema::f_node_table;
use ytx_provision::schema::global_config;
use ytx_provision::schema::i_entry_table;
use ytx_provision::schema::i_node_table;
use ytx_provision::schema::insert_global_config;
use ytx_provision::schema::insert_meta;
use ytx_provision::schema::main_statements;
use ytx_provision::schema::o_entry_table;
use ytx_provision::schema::o_node_table;
use ytx_provision::schema::o_settlement_table;
use ytx_provision::schema::path_table;
use ytx_provision::schema::s_entry_table;
use ytx_provision::schema::s_node_table;
use ytx_provision::schema::t_entry_table;
use ytx_provision::schema::t_node_table;
use ytx_provision::schema::ytx_meta;
use ytx_provision::schema::ytx_role_workspace;
use ytx_provision::schema::ytx_user;
use ytx_provision::schema::ytx_workspace_database;

#[test]
fn insert_global_config_exact_text() {
    assert_eq!(
        insert_global_config("finance"),
        r#"
        INSERT INTO global_config (section)
        VALUES ('finance')
        ON CONFLICT (section) DO NOTHING;
        "#
    );
}

#[test]
fn path_table_exact_text() {
    assert_eq!(
        path_table("task"),
        r#"
        CREATE TABLE IF NOT EXISTS task_path (
            ancestor      UUID,
            descendant    UUID,
            distance      INTEGER DEFAULT 1 CHECK (distance = 1),
            PRIMARY KEY (ancestor, descendant)
        );
        "#
    );
}

#[test]
fn insert_meta_exact_text() {
    assert_eq!(
        insert_meta(),
        r#"
        INSERT INTO ytx_meta (key, value)
        VALUES ('ytx_managed', TRUE)
        ON CONFLICT (key) DO NOTHING;
        "#
    );
}

#[test]
fn order_tables_name_their_section() {
    let node = o_node_table("sale");
    assert!(node.contains("CREATE TABLE IF NOT EXISTS sale_node ("));
    assert!(node.contains("settlement_node   UUID"));
    let entry = o_entry_table("purchase");
    assert!(entry.contains("CREATE TABLE IF NOT EXISTS purchase_entry ("));
    let settlement = o_settlement_table("sale");
    assert!(settlement.contains("CREATE TABLE IF NOT EXISTS sale_settlement ("));
}

#[test]
fn fixed_tables_name_their_targets() {
    assert!(ytx_user().contains("CREATE TABLE IF NOT EXISTS ytx_user ("));
    assert!(ytx_role_workspace().contains("CREATE TABLE IF NOT EXISTS ytx_role_workspace ("));
    assert!(
        ytx_workspace_database().contains("CREATE TABLE IF NOT EXISTS ytx_workspace_database (")
    );
    assert!(ytx_meta().contains("CREATE TABLE IF NOT EXISTS ytx_meta ("));
    assert!(global_config().contains("CREATE TABLE IF NOT EXISTS global_config ("));
    assert!(f_node_table().contains("CREATE TABLE IF NOT EXISTS finance_node ("));
    assert!(f_entry_table().contains("CREATE TABLE IF NOT EXISTS finance_entry ("));
    assert!(s_node_table().contains("CREATE TABLE IF NOT EXISTS stakeholder_node ("));
    assert!(s_entry_table().contains("CREATE TABLE IF NOT EXISTS stakeholder_entry ("));
    assert!(i_node_table().contains("CREATE TABLE IF NOT EXISTS item_node ("));
    assert!(i_entry_table().contains("CREATE TABLE IF NOT EXISTS item_entry ("));
    assert!(t_node_table().contains("CREATE TABLE IF NOT EXISTS task_node ("));
    assert!(t_entry_table().contains("CREATE TABLE IF NOT EXISTS task_entry ("));
}

#[test]
fn auth_statement_list_order() {
    let stmts = auth_statements();
    assert_eq!(
        stmts,
        vec![ytx_user(), ytx_role_workspace(), ytx_workspace_database()]
    );
}

#[test]
fn main_statement_list_order() {
    let stmts = main_statements();
    assert_eq!(stmts.len(), 29);
    assert_eq!(stmts[0], ytx_meta());
    assert_eq!(stmts[1], global_config());
    assert_eq!(stmts[2], f_node_table());
    assert_eq!(stmts[3], s_node_table());
    assert_eq!(stmts[4], i_node_table());
    assert_eq!(stmts[5], t_node_table());
    assert_eq!(stmts[6], f_entry_table());
    assert_eq!(stmts[7], s_entry_table());
    assert_eq!(stmts[8], t_entry_table());
    assert_eq!(stmts[9], i_entry_table());
    let sections = ["finance", "stakeholder", "item", "task", "sale", "purchase"];
    for (k, section) in sections.iter().enumerate() {
        assert_eq!(stmts[10 + 2 * k], path_table(section));
        assert_eq!(stmts[11 + 2 * k], insert_global_config(section));
    }
    for (k, order) in ["sale", "purchase"].iter().enumerate() {
        assert_eq!(stmts[22 + 3 * k], o_node_table(order));
        assert_eq!(stmts[23 + 3 * k], o_entry_table(order));
        assert_eq!(stmts[24 + 3 * k], o_settlement_table(order));
    }
    assert_eq!(stmts[28], insert_meta());
}
