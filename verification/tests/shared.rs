use pony_renderer::frontend::code_view::CodeView;
use pony_renderer::frontend::fancy_view::FancyView;
use pony_renderer::frontend::regular_view::RegularView;
use pony_renderer::shared::Shared;

#[test]
fn clones_share_one_value() {
    let a = Shared::new(1u32);
    let b = a.clone();
    b.with(|v| *v += 2).unwrap();
    assert_eq!(*a.borrow().unwrap(), 3);
    *a.borrow_mut().unwrap() = 10;
    assert_eq!(b.with(|v| *v), Ok(10));
    a.update(|mut v| *v += 1).unwrap();
    assert_eq!(*b.borrow().unwrap(), 11);
    let shared: Shared<u32> = 7.into();
    assert_eq!(*shared.borrow().unwrap(), 7);
}

#[test]
fn a_borrowed_value_refuses_other_borrows_instead_of_panicking() {
    let a = Shared::new(1u32);
    let b = a.clone();
    let reading = a.borrow().unwrap();
    assert!(b.borrow().is_ok());
    assert!(b.borrow_mut().is_err());
    assert!(b.with(|v| *v += 1).is_err());
    drop(reading);
    let inner = a.with(|_| b.with(|v| *v).is_err());
    assert_eq!(inner, Ok(true));
    let writing = a.borrow_mut().unwrap();
    assert!(b.borrow().is_err());
    let mut called = false;
    assert!(b.update(|_| called = true).is_err());
    assert!(!called);
    drop(writing);
    assert_eq!(*b.borrow().unwrap(), 1);
}

#[test]
fn code_view_edits_shared_text() {
    let view = CodeView::create("let x = 1;".to_string());
    assert_eq!(view.get_language(), "js");
    assert!(!view.get_show_theme());
    let code = view.get_code();
    code.with(|c| c.push_str(" x;")).unwrap();
    assert_eq!(*view.get_code().borrow().unwrap(), "let x = 1; x;");
    let shared = CodeView::new(String::new());
    assert_eq!(shared.borrow().unwrap().get_language(), "js");
    let _ = RegularView::new();
    let _ = FancyView::new();
}
