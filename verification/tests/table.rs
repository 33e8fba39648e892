use cubob::AsTable;
use cubob::Cell;
use cubob::Render;
use cubob::Row;
use cubob::row_fmt;
use cubob::sizes_list;

fn keys_and_sizes_to_cells(items: &[&'static str], sizes: &[usize]) -> Vec<Cell<&'static str>> {
    items
        .iter()
        .copied()
        .zip(sizes.iter().copied())
        .map(|(item, width)| Cell::new(Some(item), width))
        .collect()
}

#[test]
fn cell_str() {
    let cell = Cell::new(Some("str"), 3);
    let text = cell.render(false);
    assert_eq!("str", text);
}

#[test]
fn cell_no_value() {
    let cell = Cell::<&'static str>::new(None, 10);
    let text = cell.render(false);
    assert_eq!("          ", text);
}

#[test]
fn cell_some_int() {
    let value = 5usize;
    let cell = Cell::new(Some(value), 10);
    let text = cell.render(false);
    assert_eq!("5         ", text);
}

struct Point(u8, u8);

impl Render for Point {
    fn render(&self, _alternate: bool) -> String {
        format!("(x={}; y={})", self.0, self.1)
    }
}

#[test]
fn cell_some_point() {
    let value = Point(1, 2);
    let cell = Cell::new(Some(value), 10);
    let text = cell.render(false);
    assert_eq!("(x=1; y=2)", text);
}

#[test]
fn keys_row_empty() {
    let cells = keys_and_sizes_to_cells(&[], &[15]);
    let text = row_fmt(&cells);
    assert_eq!("", text);
}

#[test]
fn keys_row_single() {
    let cells = keys_and_sizes_to_cells(&["single value"], &[15]);
    let text = row_fmt(&cells);
    assert_eq!("single value   \n", text);
}

#[test]
fn keys_row_multiple() {
    let cells = keys_and_sizes_to_cells(&["one", "two"], &[5, 6]);
    let text = row_fmt(&cells);
    assert_eq!("one   | two   \n", text);
}

fn values_and_sizes_to_cells<T: Render + Copy>(
    values: &[Option<T>],
    sizes: &[usize],
) -> Vec<Cell<T>> {
    values
        .iter()
        .copied()
        .zip(sizes.iter().copied())
        .map(|(value, width)| Cell::new(value, width))
        .collect()
}

#[test]
fn values_row_empty() {
    let cells = values_and_sizes_to_cells::<&'static str>(&[], &[10]);
    let text = row_fmt(&cells);
    assert_eq!("", text);
}

#[test]
fn values_row_single_str() {
    let cells = values_and_sizes_to_cells(&[Some("value")], &[10]);
    let text = row_fmt(&cells);
    assert_eq!("value     \n", text);
}

#[test]
fn values_row_single_int() {
    let cells = values_and_sizes_to_cells(&[Some(5)], &[10]);
    let text = row_fmt(&cells);
    assert_eq!("5         \n", text);
}

#[test]
fn values_row_single_bool() {
    let cells = values_and_sizes_to_cells(&[Some(true)], &[10]);
    let text = row_fmt(&cells);
    assert_eq!("true      \n", text);
}

#[test]
fn values_row_multiple() {
    let cells = values_and_sizes_to_cells(&[Some("one"), Some("two")], &[10, 5]);
    let text = row_fmt(&cells);
    assert_eq!("one        | two  \n", text);
}

struct Quad([Option<i32>; 4]);

impl Row for Quad {
    type Value = i32;


    fn keys() -> Vec<String> {
        vec![
            "A".to_string(),
            "B".to_string(),
            "C".to_string(),
            "D".to_string(),
        ]
    }

    fn value(&self, idx: usize) -> Option<i32> {
        if idx < 4 { self.0[idx] } else { None }
    }
}

#[test]
fn sizes() {
    let table = vec![
        Quad([Some(1), Some(2), None, Some(4)]),
        Quad([Some(4), None, None, Some(10)]),
        Quad([Some(9), Some(12), None, None]),
        Quad([None, Some(20), None, Some(28)]),
    ];

    let sizes = sizes_list(&table);
    let example = [
        1, // all values in column and its name have size less or equal to 1
        2, // all values in column and its name have size less or equal to 2
        1, // all values in column are missing, but key has size 1
        2, // all values in column and its name have size less or equal to 2
    ];
    assert_eq!(&example[..], &sizes[..]);
}

#[test]
fn table() {
    let table = vec![
        Quad([None, Some(2), Some(3), Some(4)]),
        Quad([None, None, Some(8), Some(10)]),
        Quad([None, Some(12), None, Some(18)]),
        Quad([None, Some(20), Some(24), Some(28)]),
    ];

    let text = table.as_table().to_string();
    let example = "\nA | B  | C  | D \n--+----+----+---\n  | 2  | 3  | 4 \n  |    | 8  | 10\n  | 12 |    | 18\n  | 20 | 24 | 28\n";
    assert_eq!(example, text);
}
