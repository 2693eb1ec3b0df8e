#[test]
fn lib_it_works() {
    let result = simple_db::add(2, 2);
    assert_eq!(result, 4);
}
