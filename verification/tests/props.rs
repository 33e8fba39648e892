use cubob::Alternate;
use cubob::GroupKind;
use cubob::ListShow;
use cubob::NoOutput;
use cubob::Params;
use cubob::PathLike;
use cubob::Render;
use cubob::Rendered;
use cubob::Row;
use cubob::Sink;
use cubob::Source;
use cubob::StringSink;
use cubob::StructShow;
use cubob::WithParams;
use cubob::WriteCounter;
use cubob::WriteFailure;
use cubob::AsTable;
use cubob::InstantList;
use cubob::InstantStruct;
use cubob::dec_i64;
use cubob::dec_u64;
use cubob::EmbedList;
use cubob::display_list;
use cubob::display_list_from_embed;
use cubob::display_struct;
use cubob::sizes_list;

fn aggregate(alternate: bool) -> String {
    let (outcome, sink) = display_struct(
        StringSink::new(alternate),
        &[("x", 1i64), ("y", 2i64)],
    );
    outcome.unwrap();
    sink.into_string()
}

#[test]
fn aggregate_one_line_example() {
    assert_eq!("{x: 1, y: 2}", aggregate(false));
}

#[test]
fn aggregate_pretty_example() {
    assert_eq!("{\nx: 1,\ny: 2,\n}", aggregate(true));
}

fn sequence(alternate: bool) -> String {
    let (outcome, sink) = display_list(StringSink::new(alternate), &[1i64, 2, 3]);
    outcome.unwrap();
    sink.into_string()
}

#[test]
fn sequence_one_line_example() {
    assert_eq!("[1, 2, 3]", sequence(false));
}

#[test]
fn sequence_pretty_example() {
    assert_eq!("[\n1,\n2,\n3,\n]", sequence(true));
}

#[test]
fn one_line_never_adds_newlines() {
    let text = aggregate(false);
    assert!(!text.contains('\n'));
    let text = sequence(false);
    assert!(!text.contains('\n'));
}

#[test]
fn empty_groups() {
    let mut show = StructShow::new(StringSink::new(false), Alternate::Inherit);
    show.finish().unwrap();
    assert_eq!("{}", show.into_sink().into_string());
    let mut show = ListShow::new(StringSink::new(true), Alternate::Inherit);
    show.finish().unwrap();
    assert_eq!("[]", show.into_sink().into_string());
}

#[test]
fn override_affects_exactly_one_entry() {
    let both = Rendered::new("line".to_string(), "pretty".to_string());
    let mut show = ListShow::new(StringSink::new(false), Alternate::OneLine);
    show.item(&both);
    show.item_override(&both, Alternate::Pretty);
    show.item(&both);
    show.finish().unwrap();
    assert_eq!("[line, pretty, line]", show.into_sink().into_string());
}

#[test]
fn override_against_pretty_builder() {
    let both = Rendered::new("line".to_string(), "pretty".to_string());
    let mut show = StructShow::new(StringSink::new(true), Alternate::Inherit);
    show.field(&"a", &both);
    show.field_override(&"b", &both, Alternate::OneLine);
    show.field(&"c", &both);
    show.finish().unwrap();
    assert_eq!(
        "{\na: pretty,\nb: line,\nc: pretty,\n}",
        show.into_sink().into_string()
    );
}

#[test]
fn requested_mode_affects_entries_not_frame() {
    let both = Rendered::new("line".to_string(), "pretty".to_string());
    let mut show = ListShow::new(StringSink::new(false), Alternate::Pretty);
    show.item(&both);
    show.item(&both);
    show.finish().unwrap();
    assert_eq!("[pretty, pretty]", show.into_sink().into_string());
    let mut show = StructShow::new(StringSink::new(true), Alternate::OneLine);
    show.field(&"k", &both);
    show.finish().unwrap();
    assert_eq!("{
k: line,
}", show.into_sink().into_string());
}

#[test]
fn accumulation_after_finish_is_silent() {
    let mut show = ListShow::new(StringSink::new(false), Alternate::Inherit);
    show.item(&1i64);
    show.finish().unwrap();
    show.item(&2i64);
    show.item_override(&3i64, Alternate::Pretty);
    show.item_opt(&Some(4i64));
    show.items(&[5i64, 6]);
    assert_eq!("[1]", show.into_sink().into_string());
}

#[test]
fn second_finish_reports_success_without_output() {
    let mut show = StructShow::new(StringSink::new(false), Alternate::Inherit);
    show.field(&"k", &1i64);
    assert!(show.finish().is_ok());
    assert!(show.finish().is_ok());
    assert_eq!("{k: 1}", show.into_sink().into_string());
}

struct RefusingSink;

impl Sink for RefusingSink {
    fn alternate(&self) -> bool {
        false
    }

    fn begin_group(&mut self, _kind: GroupKind) {}

    fn append_entry(&mut self, _text: &str) {}

    fn complete(&mut self) -> Result<(), WriteFailure> {
        Err(WriteFailure)
    }
}

#[test]
fn finish_reports_the_completion_failure() {
    let mut show = ListShow::new(RefusingSink, Alternate::Inherit);
    show.item(&1i64);
    assert_eq!(Err(WriteFailure), show.finish());
}

struct Duo([Option<&'static str>; 2]);

impl Row for Duo {
    type Value = &'static str;


    fn keys() -> Vec<String> {
        vec!["left".to_string(), "right".to_string()]
    }

    fn value(&self, idx: usize) -> Option<&'static str> {
        if idx < 2 { self.0[idx] } else { None }
    }
}

#[test]
fn empty_table_renders_as_brackets() {
    let rows: Vec<Duo> = Vec::new();
    assert_eq!("[]", rows.as_table().to_string());
}

#[test]
fn widths_count_characters_not_bytes() {
    let rows = vec![Duo([Some("\u{e4}\u{f6}\u{fc}"), None]), Duo([None, Some("abcdef")])];
    let sizes = sizes_list(&rows);
    assert_eq!(&[4, 6][..], &sizes[..]);
    let text = rows.as_table().to_string();
    assert_eq!(
        "\nleft | right \n-----+-------\n\u{e4}\u{f6}\u{fc}  |       \n     | abcdef\n",
        text
    );
}

#[test]
fn width_example() {
    let rows = vec![
        Duo([None, Some("ab")]),
        Duo([Some("x"), None]),
    ];
    let sizes = sizes_list(&rows);
    assert_eq!(&[4, 5][..], &sizes[..]);
}

#[test]
fn write_counter_counts_characters() {
    let mut counter = WriteCounter::new();
    counter.write_str("\u{e4}\u{f6}\u{fc}");
    assert_eq!(3, counter.value());
    counter.write_char('\u{20ac}');
    assert_eq!(4, counter.value());
    counter.write_str("ab");
    assert_eq!(6, counter.value());
}

#[test]
fn path_like_joins() {
    let dotted = PathLike::new('.', false);
    let items = vec!["A", "a", "1"];
    assert_eq!("A.a.1", dotted.fmt(&items, false));
    let listed = PathLike::new(", ", false);
    assert_eq!("A, a, 1", listed.fmt(&items, false));
    let route = PathLike::new("->", false);
    let numbers = vec![1i64, 2, 3, 4];
    assert_eq!("1->2->3->4", route.fmt(&numbers, false));
    let absolute = PathLike::new('/', true);
    assert_eq!("/1/2/3/4", absolute.fmt(&numbers, false));
    let relative = absolute.with_prepend(false);
    assert_eq!("1/2/3/4", relative.fmt(&numbers, false));
}

#[test]
fn path_like_empty_uses_replacer() {
    let nothing: Vec<i64> = Vec::new();
    let silent = PathLike::new('.', false);
    assert_eq!("", silent.fmt(&nothing, false));
    let marked = silent.with_replacer("(empty)");
    assert_eq!("(empty)", marked.fmt(&nothing, false));
    let _: NoOutput = PathLike::<char, NoOutput>::new('.', false).replacer;
}

#[test]
fn path_like_with_params() {
    let dashed = PathLike::new('-', false).with_delimiter('+');
    let numbers = vec![7i64, 8, 9];
    let joined = numbers.with_params(&dashed);
    assert_eq!("7+8+9", joined.render(false));
}

#[test]
fn instant_list_renders() {
    let numbers = vec![1i64, 2, 3];
    let instant = InstantList::<_, Source>::inherit(&numbers);
    assert_eq!("[1, 2, 3]", instant.render(false));
    assert_eq!("[\n1,\n2,\n3,\n]", instant.render(true));
    let frozen = InstantList::<_, Source>::new(Alternate::OneLine, &numbers);
    let mut show = StructShow::new(StringSink::new(true), Alternate::Inherit);
    show.field_override(&"tags", &frozen, Alternate::OneLine);
    show.finish().unwrap();
    assert_eq!("{\ntags: [1, 2, 3],\n}", show.into_sink().into_string());
}

#[test]
fn instant_struct_renders() {
    let pairs = vec![("a", 1i64), ("b", 2)];
    let instant = InstantStruct::<_, Source>::inherit(&pairs);
    assert_eq!("{a: 1, b: 2}", instant.render(false));
    assert_eq!("{\na: 1,\nb: 2,\n}", instant.render(true));
}

struct Tags(Vec<i64>);

impl<S: Sink> EmbedList<S> for Tags {
    fn embed(&self, show: &mut ListShow<S>) {
        show.items(&self.0);
    }
}

#[test]
fn embedding_splices_items() {
    let tags = Tags(vec![4, 5]);
    let (outcome, sink) =
        display_list_from_embed(&tags, StringSink::new(false), Alternate::Inherit);
    outcome.unwrap();
    assert_eq!("[4, 5]", sink.into_string());
    let mut show = ListShow::new(StringSink::new(false), Alternate::Inherit);
    show.item(&0i64);
    show.embed(&tags);
    show.finish().unwrap();
    assert_eq!("[0, 4, 5]", show.into_sink().into_string());
    let numbers = vec![7i64];
    let instant = InstantList::<_, Source>::inherit(&numbers);
    let mut show = ListShow::new(StringSink::new(false), Alternate::Inherit);
    show.embed(&instant);
    show.finish().unwrap();
    assert_eq!("[7]", show.into_sink().into_string());
}

#[test]
fn decimal_rendering() {
    assert_eq!("0", dec_u64(0));
    assert_eq!("10", dec_u64(10));
    assert_eq!("18446744073709551615", dec_u64(u64::MAX));
    assert_eq!("-9223372036854775808", dec_i64(i64::MIN));
    assert_eq!("9223372036854775807", dec_i64(i64::MAX));
    assert_eq!("-1", dec_i64(-1));
    assert_eq!("305441741", dec_i64(305441741));
}

#[test]
fn alternate_resolution() {
    assert!(!Alternate::OneLine.resolve(true));
    assert!(Alternate::Pretty.resolve(false));
    assert!(Alternate::Inherit.resolve(true));
    assert!(!Alternate::Inherit.resolve(false));
    let show = ListShow::new(StringSink::new(true), Alternate::OneLine);
    assert!(show.alternate());
}
