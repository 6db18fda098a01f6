use todo_core::error::AppError;
use todo_core::text::trim;
use todo_core::validation::{
    check_broker, check_title, escape_like_pattern, validate_date_format, TodoInput,
};

fn rejection(input: &TodoInput) -> String {
    match input.validate_and_sanitize() {
        Err(AppError::Validation(text)) => text,
        other => panic!("{:?}", other),
    }
}

fn date_complaint(text: &str) -> String {
    match validate_date_format(text) {
        Err(AppError::Validation(message)) => message,
        other => panic!("{:?}", other),
    }
}

#[test]
fn trim_removes_white_space_at_both_ends() {
    assert_eq!(trim("  Buy milk \t\n"), "Buy milk");
    assert_eq!(trim("\u{3000}券商 A\u{a0}"), "券商 A");
    assert_eq!(trim("   "), "");
    assert_eq!(trim(""), "");
    assert_eq!(trim("a b"), "a b");
    assert_eq!(trim("\r\n x \u{2028}"), "x");
}

#[test]
fn trim_agrees_with_the_standard_library() {
    let samples = [
        "",
        " ",
        "a",
        " a",
        "a ",
        " a b ",
        "\t\u{85}mixed\u{1680}\u{2003}",
        "\u{200b}zero width space is no white space\u{200b}",
        "no space",
    ];
    for sample in samples {
        assert_eq!(trim(sample), sample.trim());
    }
}

#[test]
fn escape_puts_a_backslash_before_each_special_character() {
    assert_eq!(escape_like_pattern("100%"), "100\\%");
    assert_eq!(escape_like_pattern("a_b"), "a\\_b");
    assert_eq!(escape_like_pattern("c:\\dir"), "c:\\\\dir");
    assert_eq!(escape_like_pattern("%_\\"), "\\%\\_\\\\");
    assert_eq!(escape_like_pattern("plain text"), "plain text");
    assert_eq!(escape_like_pattern("券商%"), "券商\\%");
    assert_eq!(escape_like_pattern(""), "");
}

#[test]
fn escape_agrees_with_three_replacements_in_a_row() {
    let samples = ["", "%", "_", "\\", "\\%", "%%__\\\\", "a%b_c\\d", "50% off_sale\\now"];
    for sample in samples {
        let expected = sample.replace('\\', "\\\\").replace('%', "\\%").replace('_', "\\_");
        assert_eq!(escape_like_pattern(sample), expected);
    }
}

#[test]
fn title_bounds_count_characters() {
    assert!(!check_title(""));
    assert!(check_title("a"));
    assert!(check_title(&"a".repeat(500)));
    assert!(!check_title(&"a".repeat(501)));
    assert!(check_title(&"标".repeat(500)));
    assert!(!check_title(&"标".repeat(501)));
    assert!(check_title(" "));
}

#[test]
fn broker_bounds_count_characters() {
    assert!(!check_broker(""));
    assert!(check_broker("b"));
    assert!(check_broker(&"b".repeat(100)));
    assert!(!check_broker(&"b".repeat(101)));
    assert!(check_broker(&"券".repeat(100)));
    assert!(!check_broker(&"券".repeat(101)));
}

#[test]
fn input_within_bounds_is_accepted() {
    let input = TodoInput {
        title: "t".repeat(500),
        description: Some("d".repeat(2000)),
        broker: "b".repeat(100),
    };
    assert_eq!(input.validate_and_sanitize(), Ok(()));
    let least = TodoInput { title: "t".to_string(), description: None, broker: "b".to_string() };
    assert_eq!(least.validate_and_sanitize(), Ok(()));
    let blank = TodoInput {
        title: "t".to_string(),
        description: Some(String::new()),
        broker: "b".to_string(),
    };
    assert_eq!(blank.validate_and_sanitize(), Ok(()));
}

#[test]
fn input_is_judged_as_it_stands() {
    let spaces = TodoInput { title: "  ".to_string(), description: None, broker: " ".to_string() };
    assert_eq!(spaces.validate_and_sanitize(), Ok(()));
}

#[test]
fn empty_title_is_rejected() {
    let input = TodoInput { title: String::new(), description: None, broker: "b".to_string() };
    assert_eq!(rejection(&input), "输入验证失败: title: 标题长度必须在 1-500 字符之间");
}

#[test]
fn long_title_is_rejected() {
    let input = TodoInput { title: "t".repeat(501), description: None, broker: "b".to_string() };
    assert_eq!(rejection(&input), "输入验证失败: title: 标题长度必须在 1-500 字符之间");
}

#[test]
fn long_description_is_rejected() {
    let input = TodoInput {
        title: "t".to_string(),
        description: Some("d".repeat(2001)),
        broker: "b".to_string(),
    };
    assert_eq!(rejection(&input), "输入验证失败: description: 描述长度不能超过 2000 字符");
}

#[test]
fn empty_broker_is_rejected() {
    let input = TodoInput { title: "t".to_string(), description: None, broker: String::new() };
    assert_eq!(rejection(&input), "输入验证失败: broker: 券商名称长度必须在 1-100 字符之间");
}

#[test]
fn long_broker_is_rejected() {
    let input = TodoInput { title: "t".to_string(), description: None, broker: "b".repeat(101) };
    assert_eq!(rejection(&input), "输入验证失败: broker: 券商名称长度必须在 1-100 字符之间");
}

#[test]
fn every_field_out_of_bounds_gets_a_line() {
    let input = TodoInput {
        title: String::new(),
        description: Some("d".repeat(2001)),
        broker: "b".repeat(101),
    };
    assert_eq!(
        rejection(&input),
        "输入验证失败: title: 标题长度必须在 1-500 字符之间\n\
         description: 描述长度不能超过 2000 字符\n\
         broker: 券商名称长度必须在 1-100 字符之间"
    );
    let two = TodoInput { title: String::new(), description: None, broker: String::new() };
    assert_eq!(
        rejection(&two),
        "输入验证失败: title: 标题长度必须在 1-500 字符之间\n\
         broker: 券商名称长度必须在 1-100 字符之间"
    );
}

#[test]
fn date_in_shape_is_accepted() {
    assert_eq!(validate_date_format("2024-01-15"), Ok(()));
    assert_eq!(validate_date_format("1900-1-1"), Ok(()));
    assert_eq!(validate_date_format("2100-12-31"), Ok(()));
    assert_eq!(validate_date_format("+2024-+1-+5"), Ok(()));
    assert_eq!(validate_date_format("02024-001-0005"), Ok(()));
    assert_eq!(validate_date_format("000000000000002024-12-31"), Ok(()));
    assert_eq!(validate_date_format("2024-02-31"), Ok(()));
}

#[test]
fn date_out_of_shape_is_rejected_with_the_first_complaint() {
    assert_eq!(date_complaint("2024-01"), "日期格式必须为 YYYY-MM-DD");
    assert_eq!(date_complaint("2024-01-15-3"), "日期格式必须为 YYYY-MM-DD");
    assert_eq!(date_complaint("2024/01/15"), "日期格式必须为 YYYY-MM-DD");
    assert_eq!(date_complaint(""), "日期格式必须为 YYYY-MM-DD");
    assert_eq!(date_complaint("--"), "年份必须是数字");
    assert_eq!(date_complaint("year-01-15"), "年份必须是数字");
    assert_eq!(date_complaint("-01-15"), "年份必须是数字");
    assert_eq!(date_complaint("+-01-15"), "年份必须是数字");
    assert_eq!(date_complaint(" 2024-01-15"), "年份必须是数字");
    assert_eq!(date_complaint("２０２４-01-15"), "年份必须是数字");
    assert_eq!(date_complaint("4294967296-01-01"), "年份必须是数字");
    assert_eq!(date_complaint("2024-xx-yy"), "月份必须是数字");
    assert_eq!(date_complaint("2024-1_0-01"), "月份必须是数字");
    assert_eq!(date_complaint("2024-01- 5"), "日期必须是数字");
    assert_eq!(date_complaint("2024-01-"), "日期必须是数字");
    assert_eq!(date_complaint("2024-01-99999999999"), "日期必须是数字");
    assert_eq!(date_complaint("1899-00-00"), "年份必须在 1900-2100 之间");
    assert_eq!(date_complaint("2101-01-01"), "年份必须在 1900-2100 之间");
    assert_eq!(date_complaint("4294967295-01-01"), "年份必须在 1900-2100 之间");
    assert_eq!(date_complaint("2024-13-00"), "月份必须在 1-12 之间");
    assert_eq!(date_complaint("2024-00-15"), "月份必须在 1-12 之间");
    assert_eq!(date_complaint("2024-12-32"), "日期必须在 1-31 之间");
    assert_eq!(date_complaint("2024-12-0"), "日期必须在 1-31 之间");
}

#[test]
fn date_check_agrees_with_split_and_parse() {
    let samples = [
        "2024-01-15", "2024-1-5", "+2024-01-15", "2024--15", "a-b-c", "1-2", "1-2-3-4", "",
        "2000-12-31", "1900-01-01", "2100-12-31", "1899-12-31", "2101-01-01", "2024-0-1",
        "2024-13-1", "2024-1-0", "2024-1-32", "99999999999-1-1", "2024-1-1 ", "- -",
    ];
    for sample in samples {
        let parts: Vec<&str> = sample.split('-').collect();
        let expected = parts.len() == 3 && {
            match (parts[0].parse::<u32>(), parts[1].parse::<u32>(), parts[2].parse::<u32>()) {
                (Ok(year), Ok(month), Ok(day)) => {
                    (1900..=2100).contains(&year)
                        && (1..=12).contains(&month)
                        && (1..=31).contains(&day)
                }
                _ => false,
            }
        };
        assert_eq!(validate_date_format(sample).is_ok(), expected, "{sample}");
    }
}
