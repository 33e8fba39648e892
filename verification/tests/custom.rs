use cubob::Custom;

#[test]
fn output_vector_as_path() {
    let output_func = |v: &Vec<i32>, _alternate: bool| -> String {
        let mut out = String::new();
        let mut first = true;
        for item in v.iter() {
            if first {
                out = format!("{item}");
                first = false;
            } else {
                out = format!("{out}.{item}");
            }
        }
        out
    };

    let v1: Vec<i32> = vec![];
    let mut custom = Custom::new(&v1, output_func);
    let text = custom.output(false);
    assert_eq!(text, "");

    let v2 = vec![1];
    custom = custom.with_value(&v2);
    let text = custom.output(false);
    assert_eq!(text, "1");

    let v1 = vec![1, 2];
    custom = custom.with_value(&v1);
    let text = custom.output(false);
    assert_eq!(text, "1.2");

    let v2 = vec![1, 2, 3];
    custom = custom.with_value(&v2);
    let text = custom.output(false);
    assert_eq!(text, "1.2.3");
}
