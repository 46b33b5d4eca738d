use svgr_rs::state::{expand_state, get_component_name, uppercase_first_letter, Config};

#[test]
fn test_1() {
    let internal_config = expand_state(None);
    assert_eq!(internal_config.component_name, "SvgComponent");
}

#[test]
fn test_2() {
    let input = Some(Config {
        file_path: Some("hello.svg".to_string()),
        component_name: None,
        caller: None,
    });
    let internal_config = expand_state(input.as_ref());
    assert_eq!(internal_config.file_path.unwrap(), "hello.svg");
    assert_eq!(internal_config.component_name, "SvgHello");
}

#[test]
fn test_3() {
    let input = Some(Config {
        file_path: Some("hello-you.svg".to_string()),
        component_name: None,
        caller: None,
    });
    let internal_config = expand_state(input.as_ref());
    assert_eq!(internal_config.file_path.unwrap(), "hello-you.svg");
    assert_eq!(internal_config.component_name, "SvgHelloYou");
}

#[test]
fn test_4() {
    let input = Some(Config {
        file_path: Some("hello_you.svg".to_string()),
        component_name: None,
        caller: None,
    });
    let internal_config = expand_state(input.as_ref());
    assert_eq!(internal_config.file_path.unwrap(), "hello_you.svg");
    assert_eq!(internal_config.component_name, "SvgHelloYou");
}

#[test]
fn test_5() {
    let input = Some(Config {
        file_path: Some("1_big_svg.svg".to_string()),
        component_name: None,
        caller: None,
    });
    let internal_config = expand_state(input.as_ref());
    assert_eq!(internal_config.file_path.unwrap(), "1_big_svg.svg");
    assert_eq!(internal_config.component_name, "Svg1BigSvg");
}

#[test]
fn test_6() {
    let input = Some(Config {
        file_path: Some("a&b~c-d_e.svg".to_string()),
        component_name: None,
        caller: None,
    });
    let internal_config = expand_state(input.as_ref());
    assert_eq!(internal_config.file_path.unwrap(), "a&b~c-d_e.svg");
    assert_eq!(internal_config.component_name, "SvgAbcDE");
}

#[test]
fn test_7() {
    let input = Some(Config {
        file_path: Some("Arrow up.svg".to_string()),
        component_name: None,
        caller: None,
    });
    let internal_config = expand_state(input.as_ref());
    assert_eq!(internal_config.file_path.unwrap(), "Arrow up.svg");
    assert_eq!(internal_config.component_name, "SvgArrowUp");
}

#[test]
fn test_8() {
    let input = Some(Config {
        file_path: Some("Arrow up.svg".to_string()),
        component_name: Some("MyComponent".to_string()),
        caller: None,
    });
    let internal_config = expand_state(input.as_ref());
    assert_eq!(internal_config.file_path.unwrap(), "Arrow up.svg");
    assert_eq!(internal_config.component_name, "MyComponent");
}

#[test]
fn component_name_uses_last_path_component() {
    assert_eq!(get_component_name("icons/arrow-left.svg"), "SvgArrowLeft");
    assert_eq!(get_component_name("a/b/2x_icon.min.svg"), "Svg2XIcon");
}

#[test]
fn component_name_without_file_path() {
    let input = Some(Config { file_path: None, component_name: None, caller: None });
    assert_eq!(expand_state(input.as_ref()).component_name, "SvgComponent");
}

#[test]
fn uppercases_first_letter() {
    assert_eq!(uppercase_first_letter("hello"), "Hello");
    assert_eq!(uppercase_first_letter(""), "");
    assert_eq!(uppercase_first_letter("ßa"), "SSa");
}
