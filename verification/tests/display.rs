use cubob::Alternate;
use cubob::Field;
use cubob::ListShow;
use cubob::Render;
use cubob::Rendered;
use cubob::Source;
use cubob::StringSink;
use cubob::StructShow;
use cubob::display_list_from_iter;
use cubob::display_struct_from_iter;

struct Integer(isize);

impl Render for Integer {
    fn render(&self, alternate: bool) -> String {
        if alternate {
            format!("Integer value '{}'", self.0)
        } else {
            format!("'{}'", self.0)
        }
    }
}

struct Complex {
    r: Integer,
    i: Integer,
}

impl Complex {
    fn new(r: isize, i: isize) -> Self {
        Self {
            r: Integer(r),
            i: Integer(i),
        }
    }
}

impl Render for Complex {
    fn render(&self, alternate: bool) -> String {
        let sink = StringSink::new(alternate);
        let mut show = StructShow::new(sink, Alternate::Inherit);
        show.field(&"r", &self.r);
        show.field(&'i', &self.i);
        show.finish().unwrap();
        show.into_sink().into_string()
    }
}

struct Diverse {
    a: i8,
    b: char,
    c: usize,
    d: Option<&'static str>,
    e: String,
    f: Option<Integer>,
    g: Complex,
}

impl Render for Diverse {
    fn render(&self, alternate: bool) -> String {
        let sink = StringSink::new(alternate);
        let mut show = StructShow::new(sink, Alternate::Inherit);
        show.field(&"a", &self.a);
        show.field(&'b', &self.b);
        show.field(&"c".to_owned(), &self.c);
        show.field_opt(&"d", &self.d);
        show.field(&'e', &self.e);
        show.field_opt(&"f".to_owned(), &self.f);
        show.field(&"g", &self.g);
        show.finish().unwrap();
        show.into_sink().into_string()
    }
}

struct Array4 {
    one: Integer,
    two: isize,
    three: char,
    four: Option<char>,
}

impl Render for Array4 {
    fn render(&self, alternate: bool) -> String {
        let sink = StringSink::new(alternate);
        let mut show = ListShow::new(sink, Alternate::Inherit);
        show.item(&self.one);
        show.item(&self.two);
        show.item(&self.three);
        show.item_opt(&self.four);
        show.finish().unwrap();
        show.into_sink().into_string()
    }
}

struct Hector(Vec<isize>);

impl Render for Hector {
    fn render(&self, alternate: bool) -> String {
        let (outcome, sink) =
            display_list_from_iter::<_, Source, _>(StringSink::new(alternate), &self.0);
        outcome.unwrap();
        sink.into_string()
    }
}

struct Shmap(Vec<(&'static str, isize)>);

impl Render for Shmap {
    fn render(&self, alternate: bool) -> String {
        let (outcome, sink) =
            display_struct_from_iter::<_, Source, _>(StringSink::new(alternate), &self.0);
        outcome.unwrap();
        sink.into_string()
    }
}

#[test]
fn display() {
    assert_eq!("key: value", &Field::new(&"key", &"value").render(false));
    assert_eq!("key: 12345", &Field::new(&"key", &12345).render(false));
    assert_eq!(
        "coord: '-43'",
        &Field::new(&"coord", &Integer(-43)).render(false)
    );
    assert_eq!(
        "point: {r: '1', i: '2'}",
        &Field::new(&"point", &Complex::new(1, 2)).render(false)
    );
    assert_eq!(
        "{a: -1, b: z, c: 123456789, d: static string literal, e: Some text, f: '-19', g: {r: '-3', i: '4'}}",
        &Diverse {
            a: -1,
            b: 'z',
            c: 123456789,
            d: Some("static string literal"),
            e: "Some text".to_string(),
            f: Some(Integer(-19)),
            g: Complex::new(-3, 4)
        }
        .render(false)
    );
    assert_eq!(
        "{a: -1, b: z, c: 123456789, e: Some text, g: {r: '-3', i: '4'}}",
        &Diverse {
            a: -1,
            b: 'z',
            c: 123456789,
            d: None,
            e: "Some text".to_string(),
            f: None,
            g: Complex::new(-3, 4)
        }
        .render(false)
    );
    assert_eq!(
        "['1', 2, c, s]",
        &Array4 {
            one: Integer(1),
            two: 2,
            three: 'c',
            four: Some('s'),
        }
        .render(false)
    );
    assert_eq!(
        "['3', 4, d]",
        &Array4 {
            one: Integer(3),
            two: 4,
            three: 'd',
            four: None,
        }
        .render(false)
    );
    assert_eq!(
        "[1, 2, 3, 4, 5]",
        &Hector((1..6).into_iter().collect()).render(false)
    );
    assert_eq!(
        "{0: 0, 1: 2, 3: 5}",
        &Shmap(vec![("0", 0), ("1", 2), ("3", 5)]).render(false)
    )
}

#[test]
fn display_alternative() {
    assert_eq!("key: value", &Field::new(&"key", &"value").render(true));
    assert_eq!("key: 12345", &Field::new(&"key", &12345).render(true));
    assert_eq!(
        "coord: Integer value '-43'",
        &Field::new(&"coord", &Integer(-43)).render(true)
    );
    let point_output = r#"point: {
r: Integer value '1',
i: Integer value '2',
}"#;
    assert_eq!(
        point_output,
        &Field::new(&"point", &Complex::new(1, 2)).render(true)
    );
    assert_eq!(
        r#"{
a: -1,
b: z,
c: 123456789,
d: static string literal,
e: Some text,
f: Integer value '-19',
g: {
    r: Integer value '-3',
    i: Integer value '4',
},
}"#,
        &Diverse {
            a: -1,
            b: 'z',
            c: 123456789,
            d: Some("static string literal"),
            e: "Some text".to_string(),
            f: Some(Integer(-19)),
            g: Complex::new(-3, 4)
        }
        .render(true)
    );
    assert_eq!(
        r#"{
a: -1,
b: z,
c: 123456789,
e: Some text,
g: {
    r: Integer value '-3',
    i: Integer value '4',
},
}"#,
        &Diverse {
            a: -1,
            b: 'z',
            c: 123456789,
            d: None,
            e: "Some text".to_string(),
            f: None,
            g: Complex::new(-3, 4)
        }
        .render(true)
    );
    assert_eq!(
        r#"[
Integer value '5',
6,
e,
]"#,
        &Array4 {
            one: Integer(5),
            two: 6,
            three: 'e',
            four: None,
        }
        .render(true)
    );
    assert_eq!(
        r#"[
Integer value '7',
8,
f,
g,
]"#,
        &Array4 {
            one: Integer(7),
            two: 8,
            three: 'f',
            four: Some('g'),
        }
        .render(true)
    );
    assert_eq!(
        r#"[
1,
2,
3,
4,
5,
]"#,
        &Hector((1..6).into_iter().collect()).render(true)
    );
    assert_eq!(
        r#"{
0: 0,
1: 2,
3: 5,
}"#,
        &Shmap(vec![("0", 0), ("1", 2), ("3", 5)]).render(true)
    );
}

fn str_debug(s: &str) -> Rendered {
    Rendered::uniform(format!("{s:?}"))
}

fn int_debug(n: isize) -> Rendered {
    Rendered::new(format!("{n}"), format!("{n}"))
}

fn integer_debug(n: isize) -> Rendered {
    Rendered::new(format!("Integer({n})"), format!("Integer(\n{n},\n)"))
}

fn complex_debug(r: isize, i: isize) -> Rendered {
    Rendered::new(
        format!("Complex {{ r: Integer({r}), i: Integer({i}) }}"),
        format!("Complex {{\nr: Integer(\n    {r},\n),\ni: Integer(\n    {i},\n),\n}}"),
    )
}

#[test]
fn debug() {
    assert_eq!(
        "\"key\": \"value\"",
        &Field::new(&str_debug("key"), &str_debug("value")).render(false)
    );
    assert_eq!(
        "\"key\": 12345",
        &Field::new(&str_debug("key"), &int_debug(12345)).render(false)
    );
    assert_eq!(
        "\"coord\": Integer(-43)",
        &Field::new(&str_debug("coord"), &integer_debug(-43)).render(false)
    );
    assert_eq!(
        "\"point\": Complex { r: Integer(1), i: Integer(2) }",
        &Field::new(&str_debug("point"), &complex_debug(1, 2)).render(false)
    );
}

#[test]
fn debug_alternative() {
    assert_eq!(
        "\"key\": \"value\"",
        &Field::new(&str_debug("key"), &str_debug("value")).render(true)
    );
    assert_eq!(
        "\"key\": 12345",
        &Field::new(&str_debug("key"), &int_debug(12345)).render(true)
    );
    assert_eq!(
        r#""coord": Integer(
-43,
)"#,
        &Field::new(&str_debug("coord"), &integer_debug(-43)).render(true)
    );
    let point_output = r#""point": Complex {
r: Integer(
    1,
),
i: Integer(
    2,
),
}"#;
    assert_eq!(
        point_output,
        &Field::new(&str_debug("point"), &complex_debug(1, 2)).render(true)
    );
}
