use kafctl::schemas::{SchemaOperation, Schemas};
use kafctl::table::{admits, cell_admits, find, select, table, Cell, Kind, Row, Shape};
use kafctl::text::decimal;

fn shape_of(bits: u32) -> Shape {
    Shape {
        list: bits & 1 != 0,
        subject: bits & 2 != 0,
        version: bits & 4 != 0,
        delete: bits & 8 != 0,
        schema: bits & 16 != 0,
        register: bits & 32 != 0,
        check: bits & 64 != 0,
        body: bits & 128 != 0,
    }
}

fn flags_of(shape: &Shape) -> Schemas {
    Schemas {
        url: "http://r".to_string(),
        list: shape.list,
        subject: if shape.subject { Some("s".to_string()) } else { None },
        version: if shape.version { Some(9) } else { None },
        delete: shape.delete,
        schema: shape.schema,
        register: shape.register,
        check: shape.check,
        escaped_schema: if shape.body { Some("b".to_string()) } else { None },
    }
}

fn by_pattern(s: &Schemas) -> Option<Kind> {
    match (
        s.list,
        s.subject.is_some(),
        s.version.is_some(),
        s.delete,
        s.schema,
        s.register,
        s.check,
        s.escaped_schema.is_some(),
    ) {
        (true, false, false, false, false, false, false, false) => Some(Kind::ListSubjects),
        (false, true, false, false, false, false, false, false) => Some(Kind::GetSubject),
        (false, true, true, false, _, false, false, false) => Some(Kind::GetVersion),
        (false, true, true, true, false, false, false, false) => Some(Kind::DeleteVersion),
        (false, true, true, false, false, false, true, _) => Some(Kind::CheckVersion),
        (false, true, false, true, false, false, false, false) => Some(Kind::DeleteSubject),
        (false, true, false, false, false, false, true, _) => Some(Kind::CheckSubject),
        (false, true, false, false, false, true, false, _) => Some(Kind::RegisterVersion),
        _ => None,
    }
}

fn kind_of(op: &SchemaOperation) -> Kind {
    match op {
        SchemaOperation::ListSubjects => Kind::ListSubjects,
        SchemaOperation::GetSubject { .. } => Kind::GetSubject,
        SchemaOperation::GetVersion { .. } => Kind::GetVersion,
        SchemaOperation::DeleteVersion { .. } => Kind::DeleteVersion,
        SchemaOperation::DeleteSubject { .. } => Kind::DeleteSubject,
        SchemaOperation::CheckSubject { .. } => Kind::CheckSubject,
        SchemaOperation::CheckVersion { .. } => Kind::CheckVersion,
        SchemaOperation::RegisterVersion { .. } => Kind::RegisterVersion,
    }
}

#[test]
fn the_table_has_eleven_rows() {
    let t = table();
    assert_eq!(t.len(), 11);
    assert_eq!(
        t[0],
        Row {
            list: Cell::Yes,
            subject: Cell::No,
            version: Cell::No,
            delete: Cell::No,
            schema: Cell::No,
            register: Cell::No,
            check: Cell::No,
            body: Cell::No,
            kind: Kind::ListSubjects,
        }
    );
    assert_eq!(t[2].schema, Cell::Any);
    assert_eq!(t[2].kind, Kind::GetVersion);
    assert_eq!(t[10].kind, Kind::RegisterVersion);
    assert_eq!(t[10].body, Cell::Yes);
}

#[test]
fn a_cell_lets_pass_what_it_names() {
    assert!(cell_admits(Cell::No, false));
    assert!(!cell_admits(Cell::No, true));
    assert!(cell_admits(Cell::Yes, true));
    assert!(!cell_admits(Cell::Yes, false));
    assert!(cell_admits(Cell::Any, true));
    assert!(cell_admits(Cell::Any, false));
}

#[test]
fn no_shape_matches_two_rows() {
    let t = table();
    let mut accepted = 0;
    for bits in 0..256u32 {
        let shape = shape_of(bits);
        let matching = t.iter().filter(|row| admits(row, &shape)).count();
        assert!(matching <= 1, "shape {:?} matches {} rows", shape, matching);
        accepted += matching;
    }
    assert_eq!(accepted, 12);
}

#[test]
fn every_shape_is_selected_as_the_patterns_say() {
    let t = table();
    for bits in 0..256u32 {
        let shape = shape_of(bits);
        let s = flags_of(&shape);
        assert_eq!(s.shape(), shape);
        assert_eq!(select(&shape), by_pattern(&s), "shape {:?}", shape);
        assert_eq!(find(&t, &shape), by_pattern(&s));
        assert_eq!(s.operation().as_ref().map(kind_of), by_pattern(&s));
    }
}

#[test]
fn find_returns_the_first_matching_row() {
    let any = Row {
        list: Cell::Any,
        subject: Cell::Any,
        version: Cell::Any,
        delete: Cell::Any,
        schema: Cell::Any,
        register: Cell::Any,
        check: Cell::Any,
        body: Cell::Any,
        kind: Kind::GetSubject,
    };
    let listing = Row { list: Cell::Yes, kind: Kind::ListSubjects, ..any };
    let shape = shape_of(1);
    assert_eq!(find(&vec![], &shape), None);
    assert_eq!(find(&vec![any, listing], &shape), Some(Kind::GetSubject));
    assert_eq!(find(&vec![listing, any], &shape), Some(Kind::ListSubjects));
    assert_eq!(find(&vec![listing, any], &shape_of(0)), Some(Kind::GetSubject));
    assert_eq!(find(&vec![listing], &shape_of(0)), None);
}

#[test]
fn numerals_have_no_sign_and_no_leading_zero() {
    assert_eq!(decimal(0), "0");
    assert_eq!(decimal(7), "7");
    assert_eq!(decimal(9), "9");
    assert_eq!(decimal(10), "10");
    assert_eq!(decimal(307), "307");
    assert_eq!(decimal(1_000_000), "1000000");
    assert_eq!(decimal(u32::MAX), "4294967295");
    for v in [1u32, 19, 99, 100, 101, 12345, 4294967294] {
        assert_eq!(decimal(v), v.to_string());
    }
}
