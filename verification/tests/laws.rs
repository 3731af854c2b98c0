use monoid::cow_text::CowText;
use monoid::Monoid;

#[test]
fn string_identity_left() {
    assert_eq!("hello".to_string(), String::id().op("hello".to_string()));
    assert_eq!("hello".to_string(), "".to_string().op("hello".to_string()));
}

#[test]
fn string_identity_right() {
    assert_eq!("hello".to_string(), "hello".to_string().op(String::id()));
    assert_eq!("hello".to_string(), "hello".to_string().op("".to_string()));
}

#[test]
fn string_identity_of_empty() {
    assert_eq!("".to_string(), String::id().op(String::id()));
}

#[test]
fn string_associativity() {
    let grouped_left = "ab".to_string().op("cd".to_string()).op("ef".to_string());
    let grouped_right = "ab".to_string().op("cd".to_string().op("ef".to_string()));
    assert_eq!(grouped_left, grouped_right);
    assert_eq!("abcdef".to_string(), grouped_left);
}

#[test]
fn cow_matches_text() {
    let plain = "abc".to_string().op("def".to_string());
    let cow = CowText::borrowed("abc").op(CowText::borrowed("def"));
    assert_eq!(plain, cow.into_owned());
}

#[test]
fn cow_identity() {
    assert_eq!(
        CowText::borrowed("hello"),
        CowText::id().op(CowText::borrowed("hello"))
    );
    assert_eq!(
        CowText::borrowed("hello"),
        CowText::borrowed("hello").op(CowText::id())
    );
}

#[test]
fn cow_associativity() {
    let grouped_left = CowText::borrowed("ab")
        .op(CowText::borrowed("cd"))
        .op(CowText::borrowed("ef"));
    let grouped_right =
        CowText::borrowed("ab").op(CowText::borrowed("cd").op(CowText::borrowed("ef")));
    assert_eq!(grouped_left, grouped_right);
    assert_eq!(CowText::borrowed("abcdef"), grouped_left);
}

#[test]
fn cow_mixed_forms() {
    let borrowed_then_owned = CowText::borrowed("abc").op(CowText::owned("def".to_string()));
    let owned_then_borrowed = CowText::owned("abc".to_string()).op(CowText::borrowed("def"));
    assert_eq!(borrowed_then_owned, owned_then_borrowed);
    assert_eq!(CowText::borrowed("abcdef"), borrowed_then_owned);
}

#[test]
fn cow_equality_ignores_form() {
    assert_eq!(CowText::borrowed("xyz"), CowText::owned("xyz".to_string()));
    assert_ne!(CowText::borrowed("xyz"), CowText::owned("xy".to_string()));
}

#[test]
fn cow_borrow_round_trip() {
    assert_eq!("hello".to_string(), CowText::borrowed("hello").into_owned());
    assert_eq!("".to_string(), CowText::borrowed("").into_owned());
    let viewed = CowText::borrowed("some text");
    assert_eq!("some text".to_string(), viewed.to_text());
    assert_eq!("some text".to_string(), viewed.into_owned());
}

#[test]
fn option_identity_value() {
    assert_eq!(None::<String>, Option::<String>::id());
}

#[test]
fn option_absorbs_absent() {
    assert_eq!(
        Some("abc".to_string()),
        Some("abc".to_string()).op(Option::id())
    );
    assert_eq!(
        Some("abc".to_string()),
        Option::id().op(Some("abc".to_string()))
    );
}

#[test]
fn option_associativity() {
    let a = || Some("a".to_string());
    let b = || Some("b".to_string());
    let c = || Some("c".to_string());
    assert_eq!(a().op(b()).op(c()), a().op(b().op(c())));
    assert_eq!(Some("abc".to_string()), a().op(b()).op(c()));
    assert_eq!(None::<String>.op(b()).op(None), None::<String>.op(b().op(None)));
    assert_eq!(b(), None::<String>.op(b()).op(None));
}

#[test]
fn option_of_cow() {
    let combined = Some(CowText::borrowed("one")).op(Some(CowText::borrowed("two")));
    assert_eq!(Some(CowText::borrowed("onetwo")), combined);
    assert_eq!(None::<CowText<'_>>, Option::<CowText<'_>>::id());
}
