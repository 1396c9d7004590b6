use ext_php_rs::array::ZendHashTable;
use ext_php_rs::class::{ClassEntry, ClassMetadata};
use ext_php_rs::globals::{ExecutorGlobals, ProcessGlobals, SapiGlobals, SapiHeader, SapiHeaders, SapiRequestInfo};
use ext_php_rs::ini_entry_def::{IniEntryDef, IniEntryPermission, ZEND_INI_ALL, ZEND_INI_USER};
use ext_php_rs::linked_list::ZendLinkedList;
use ext_php_rs::zval::Zval;

fn array_zval(key: &str, value: &str) -> Zval {
    let mut ht = ZendHashTable::new();
    ht.insert(key, value).unwrap();
    let mut z = Zval::new();
    z.set_hashtable(ht);
    z
}

#[test]
fn process_globals_read_superglobals() {
    let pg = ProcessGlobals {
        http_globals: vec![
            array_zval("p", "post"),
            array_zval("g", "get"),
            array_zval("c", "cookie"),
            array_zval("s", "server"),
            array_zval("e", "env"),
            array_zval("f", "files"),
        ],
    };
    assert_eq!(pg.http_post_vars().get("p").unwrap().string().unwrap(), "post");
    assert_eq!(pg.http_get_vars().get("g").unwrap().string().unwrap(), "get");
    assert_eq!(pg.http_cookie_vars().get("c").unwrap().string().unwrap(), "cookie");
    assert_eq!(pg.http_env_vars().get("e").unwrap().string().unwrap(), "env");
    assert_eq!(pg.http_files_vars().get("f").unwrap().string().unwrap(), "files");
}

#[test]
fn sapi_globals_report_request_and_headers() {
    let mut sg = SapiGlobals {
        request_info: SapiRequestInfo {
            request_method: Some(b"POST".to_vec()),
            query_string: Some(b"a=1".to_vec()),
            cookie_data: None,
            path_translated: Some(vec![0xff, 0xfe]),
            request_uri: Some(b"/index.php".to_vec()),
            content_type: Some(b"text/plain".to_vec()),
            auth_user: None,
            auth_password: None,
            auth_digest: None,
            argv0: None,
            current_user: Some(b"www".to_vec()),
            argv: None,
            content_length: 12,
            headers_only: false,
            no_headers: true,
            headers_read: true,
            current_user_length: 4,
            argc: 2,
            proto_num: 1001,
        },
        sapi_headers: SapiHeaders {
            headers: ZendLinkedList::new(vec![
                SapiHeader { header: "Content-Type: text/html".to_string() },
                SapiHeader { header: "X-Test: 1".to_string() },
            ]),
        },
    };
    let info = sg.request_info();
    assert_eq!(info.request_method(), Some("POST"));
    assert_eq!(info.query_string(), Some("a=1"));
    assert_eq!(info.cookie_data(), None);
    assert_eq!(info.path_translated(), None);
    assert_eq!(info.request_uri(), Some("/index.php"));
    assert_eq!(info.content_type(), Some("text/plain"));
    assert_eq!(info.current_user(), Some("www"));
    assert_eq!(info.auth_user(), None);
    assert_eq!(info.argv(), None);
    assert_eq!(info.content_length(), 12);
    assert!(!info.headers_only());
    assert!(info.no_headers());
    assert!(info.headers_read());
    assert_eq!(info.current_user_length(), 4);
    assert_eq!(info.argvc(), 2);
    assert_eq!(info.proto_num(), 1001);
    assert_eq!(sg.sapi_headers().headers.iter().next().unwrap().header, "Content-Type: text/html");
    let mut it = sg.sapi_headers.headers();
    assert_eq!(it.next().unwrap().header, "Content-Type: text/html");
    assert_eq!(it.next().unwrap().header, "X-Test: 1");
    assert!(it.next().is_none());
    assert!(it.next().is_none());
}

#[test]
fn ini_entry_definition() {
    let def = IniEntryDef::new(
        "my_ext.limit".to_string(),
        "100".to_string(),
        IniEntryPermission::from_bits_truncate(ZEND_INI_USER | 64),
    );
    assert_eq!(def.name.as_deref(), Some("my_ext.limit"));
    assert_eq!(def.value.as_deref(), Some("100"));
    assert_eq!(def.name_length, 12);
    assert_eq!(def.value_length, 3);
    assert_eq!(def.modifiable, 1);
    let end = IniEntryDef::end();
    assert_eq!(end.name, None);
    assert_eq!(end.modifiable, 0);
    assert_eq!(IniEntryPermission::from_bits_truncate(0xff).bits(), ZEND_INI_ALL);
    let boxed = def.into_raw();
    assert_eq!(boxed.name_length, 12);
}

#[test]
fn class_metadata_stores_entry_once() {
    let mut meta = ClassMetadata::new();
    assert!(!meta.has_ce());
    meta.set_ce(ClassEntry::std_class());
    assert!(meta.has_ce());
    assert_eq!(meta.ce().name(), "stdClass");
}

#[test]
fn header_names_and_values() {
    let h = SapiHeader { header: "Content-Type:  text/html ".to_string() };
    assert_eq!(h.as_str(), "Content-Type:  text/html ");
    assert_eq!(h.name(), "Content-Type");
    assert_eq!(h.value(), Some("text/html"));
    // The value ends at the next colon.
    let h = SapiHeader { header: "Location: http://example.com".to_string() };
    assert_eq!(h.name(), "Location");
    assert_eq!(h.value(), Some("http"));
    let h = SapiHeader { header: " NoColon ".to_string() };
    assert_eq!(h.name(), "NoColon");
    assert_eq!(h.value(), None);
    let h = SapiHeader { header: "X-Émoji: ✓".to_string() };
    assert_eq!(h.name(), "X-Émoji");
    assert_eq!(h.value(), Some("✓"));
}

#[test]
fn executor_tables_and_builtin_interfaces() {
    use_tables();
}

fn use_tables() {
    let mut eg = ext_php_rs::globals::ExecutorGlobals::new();
    assert!(eg.class_table().is_none());
    eg.function_table = Some(ZendHashTable::new());
    assert!(eg.function_table().unwrap().is_empty());
    assert!(eg.constants().is_none());
    let iter = ClassEntry::iterator();
    assert!(iter.is_interface());
    assert!(iter.instance_of(&ClassEntry::traversable()));
    assert!(ClassEntry::aggregate().instance_of(&ClassEntry::traversable()));
    assert!(!ClassEntry::countable().instance_of(&ClassEntry::traversable()));
    assert_eq!(ClassEntry::stringable().name(), "Stringable");
    assert_eq!(ClassEntry::arrayaccess().name(), "ArrayAccess");
    assert_eq!(ClassEntry::serializable().name(), "Serializable");
}

#[test]
fn cancel_interrupt_clears_a_requested_interrupt() {
    let mut eg = ExecutorGlobals::new();
    assert!(!eg.vm_interrupt);
    eg.request_interrupt();
    assert!(eg.vm_interrupt);
    eg.cancel_interrupt();
    assert!(!eg.vm_interrupt);
}
