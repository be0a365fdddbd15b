use aya_btf_maps::btf::{btf_map, btf_map_source, btf_type_name, expandable_name, BtfMapArgs, MAPS_SECTION};

fn args(name: &str, map_type: &str, key: &str, value: &str, max: &str, flags: &str) -> BtfMapArgs {
    BtfMapArgs {
        name: name.to_string(),
        map_type: map_type.to_string(),
        key_type: key.to_string(),
        value_type: value.to_string(),
        max_entries: max.to_string(),
        map_flags: flags.to_string(),
    }
}

#[test]
fn btf_type_names() {
    assert_eq!(btf_type_name("PID_MAP"), "_ty_PID_MAP");
    assert_eq!(btf_type_name(""), "_ty_");
    assert_eq!(MAPS_SECTION, ".maps");
}

#[test]
fn expansion_text_of_the_pid_map() {
    let a = args("PID_MAP", "BPF_MAP_TYPE_HASH", "i32", "i32", "1024", "0");
    assert_eq!(
        btf_map_source(&a),
        "pub struct _ty_PID_MAP { pub r#type : * const [i32 ; (BPF_MAP_TYPE_HASH) as usize] , \
         pub key : * const i32 , pub value : * const i32 , \
         pub max_entries : * const [i32 ; (1024) as usize] , \
         pub map_flags : * const [i32 ; (0) as usize] , } \
         # [link_section = \".maps\"] # [export_name = \"PID_MAP\"] \
         pub static mut PID_MAP : _ty_PID_MAP = _ty_PID_MAP { \
         r#type : & [0i32 ; (BPF_MAP_TYPE_HASH) as usize] as * const [i32 ; (BPF_MAP_TYPE_HASH) as usize] , \
         key : :: core :: ptr :: null () , value : :: core :: ptr :: null () , \
         max_entries : & [0i32 ; (1024) as usize] as * const [i32 ; (1024) as usize] , \
         map_flags : & [0i32 ; (0) as usize] as * const [i32 ; (0) as usize] , } ;"
    );
}

#[test]
fn expansion_lexes_and_parses_as_items() {
    let a = args("PID_MAP", "BPF_MAP_TYPE_HASH", "i32", "i32", "512 + 512", "0");
    let tokens = btf_map(&a).expect("the expansion lexes");
    let file: syn::File = syn::parse2(tokens.clone()).expect("the expansion is two items");
    assert_eq!(file.items.len(), 2);
    let text = tokens.to_string();
    assert!(text.contains("_ty_PID_MAP"));
    assert!(text.contains("(512 + 512) as usize"));
    assert!(text.starts_with("pub struct _ty_PID_MAP"));
}

#[test]
fn expansion_that_does_not_lex_gives_none() {
    let a = args("M", "\"unterminated", "i32", "i32", "1", "0");
    assert!(btf_map(&a).is_none());
}

#[test]
fn raw_names_are_not_expandable() {
    assert!(expandable_name("PID_MAP"));
    assert!(!expandable_name("r#type"));
}
