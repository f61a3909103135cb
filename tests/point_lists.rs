use openchute::pointlist::{point_list_fields, split_chars, trim_chars};

fn pairs(v: &[(&str, &str)]) -> Vec<(String, String)> {
    v.iter().map(|(a, b)| (a.to_string(), b.to_string())).collect()
}

#[test]
fn default_point_list_fields() {
    assert_eq!(point_list_fields("0,0\n1,0"), pairs(&[("0", "0"), ("1", "0")]));
}

#[test]
fn malformed_lines_are_skipped() {
    let text = "1,2\n\n3\n4,5,6\n 7 , 8 \r\nx,y";
    assert_eq!(point_list_fields(text), pairs(&[("1", "2"), ("7", "8"), ("x", "y")]));
}

#[test]
fn empty_text_has_no_points() {
    assert!(point_list_fields("").is_empty());
    assert_eq!(point_list_fields(","), pairs(&[("", "")]));
}

#[test]
fn split_keeps_empty_pieces() {
    let v: Vec<char> = "a,,b,".chars().collect();
    let parts: Vec<String> = split_chars(&v, ',').iter().map(|p| p.iter().collect()).collect();
    assert_eq!(parts, vec!["a", "", "b", ""]);
    let none: Vec<char> = vec![];
    assert_eq!(split_chars(&none, ',').len(), 1);
}

#[test]
fn trim_strips_both_ends() {
    let v: Vec<char> = " \t 1.5e3 \n".chars().collect();
    let t: String = trim_chars(&v).iter().collect();
    assert_eq!(t, "1.5e3");
    let blank: Vec<char> = "   ".chars().collect();
    assert!(trim_chars(&blank).is_empty());
}
