use toolapi::value::atomic::{Bool, Float, Int, Str, Unit};
use toolapi::value::dynamic::{Dict, List};
use toolapi::value::pointer::{Index, Pointer};
use toolapi::value::structured::Volume;
use toolapi::value::typed::{TypedDict, TypedList};
use toolapi::{ExtractionError, Value};

/// Values have no `==`, since the order of the entries of a mapping says
/// nothing; what two values print as is compared instead.
fn alike<T: std::fmt::Debug>(left: T, right: T) {
    assert_eq!(format!("{left:?}"), format!("{right:?}"));
}

fn num(value: i64) -> Value {
    Value::Int(Int(value))
}

fn text(value: &str) -> Value {
    Value::Str(Str(value.to_string()))
}

fn key(name: &str) -> Index {
    Index::Key(name.to_string())
}

/// {"tissues": [{"density": 1, "name": "fat"}, [10, 20, [30, 40]]], "": {"": 7}}
fn nested() -> Value {
    let tissue = Value::Dict(Dict(vec![
        ("density".to_string(), num(1)),
        ("name".to_string(), text("fat")),
    ]));
    let deep = Value::List(List(vec![num(10), num(20), Value::List(List(vec![num(30), num(40)]))]));
    Value::Dict(Dict(vec![
        ("tissues".to_string(), Value::List(List(vec![tissue, deep]))),
        ("".to_string(), Value::Dict(Dict(vec![("".to_string(), num(7))]))),
    ]))
}

fn every_variant() -> Vec<Value> {
    let volume = Volume {
        shape: [1, 2, 3],
        affine: [[0; 4]; 3],
        data: TypedList::Float(vec![Float(1.5f64.to_bits())]),
    };
    vec![
        Value::Unit(Unit),
        Value::Bool(Bool(true)),
        num(-3),
        Value::Float(Float(2.5f64.to_bits())),
        text("abc"),
        Value::Volume(volume),
        Value::Dict(Dict(vec![("a".to_string(), num(1))])),
        Value::List(List(vec![num(1), text("x")])),
        Value::TypedDict(TypedDict::Int(vec![("a".to_string(), Int(1))])),
        Value::TypedList(TypedList::Str(vec![Str("a".to_string())])),
    ]
}

#[test]
fn index_past_the_end_is_out_of_bounds() {
    let list = Value::List(List(vec![num(1), num(2), num(3)]));
    alike(list.get("5"), Err(ExtractionError::IndexOutOfBounds));
    alike(list.get("3"), Err(ExtractionError::IndexOutOfBounds));
    alike(list.get("2"), Ok(num(3)));
}

#[test]
fn missing_key_is_not_found() {
    let dict = Value::Dict(Dict(vec![]));
    alike(dict.get("k"), Err(ExtractionError::KeyNotFound));
}

#[test]
fn index_into_atomic_is_too_much_nesting() {
    alike(num(5).get("0"), Err(ExtractionError::TooMuchNesting));
    alike(num(5).get("k"), Err(ExtractionError::TooMuchNesting));
    alike(text("abc").get("0"), Err(ExtractionError::TooMuchNesting));
}

#[test]
fn empty_path_returns_the_value_for_every_variant() {
    for value in every_variant() {
        alike(value.get(""), Ok(value.clone()));
        alike(value.get(Pointer(vec![])), Ok(value.clone()));
        alike(value._get(&[]), Ok(value.clone()));
    }
}

#[test]
fn nested_paths_are_followed() {
    let value = nested();
    alike(value.get("tissues/0/density"), Ok(num(1)));
    alike(value.get("tissues/0/name"), Ok(text("fat")));
    alike(value.get("tissues/1/2/1"), Ok(num(40)));
    alike(value.get("tissues/1/2"), Ok(Value::List(List(vec![num(30), num(40)]))));
    alike(value.get("tissues/1/2/1/0"), Err(ExtractionError::TooMuchNesting));
    alike(value.get("tissues/2"), Err(ExtractionError::IndexOutOfBounds));
    alike(value.get("tissues/0/missing"), Err(ExtractionError::KeyNotFound));
    alike(value.get("tissues/0/missing/more"), Err(ExtractionError::KeyNotFound));
}

#[test]
fn empty_pieces_are_keys() {
    let value = nested();
    alike(value.get("/"), Ok(num(7)));
    alike(value.get("tissues/"), Err(ExtractionError::KeyForList));
}

#[test]
fn wrong_kind_of_step_is_told_apart() {
    let list = Value::List(List(vec![num(1)]));
    let dict = Value::Dict(Dict(vec![("0".to_string(), num(1))]));
    alike(list.get("name"), Err(ExtractionError::KeyForList));
    alike(dict.get("0"), Err(ExtractionError::IndexForDict));
    alike(dict.get(0usize), Err(ExtractionError::IndexForDict));
    let typed_list = Value::TypedList(TypedList::Int(vec![Int(1)]));
    let typed_dict = Value::TypedDict(TypedDict::Int(vec![("a".to_string(), Int(1))]));
    alike(typed_list.get("a"), Err(ExtractionError::KeyForList));
    alike(typed_list.get("a/b"), Err(ExtractionError::KeyForList));
    alike(typed_dict.get("0"), Err(ExtractionError::IndexForDict));
    alike(typed_dict.get("0/1"), Err(ExtractionError::IndexForDict));
}

#[test]
fn typed_collections_hand_out_items_at_the_end_of_a_path() {
    let list = Value::TypedList(TypedList::Int(vec![Int(10), Int(20)]));
    alike(list.get("1"), Ok(num(20)));
    alike(list.get(1usize), Ok(num(20)));
    alike(list.get("2"), Err(ExtractionError::IndexOutOfBounds));
    alike(list.get("1/0"), Err(ExtractionError::TooMuchNesting));
    alike(list.get("7/0"), Err(ExtractionError::TooMuchNesting));
    let dict = Value::TypedDict(TypedDict::Str(vec![
        ("a".to_string(), Str("x".to_string())),
        ("b".to_string(), Str("y".to_string())),
    ]));
    alike(dict.get("b"), Ok(text("y")));
    alike(dict.get("c"), Err(ExtractionError::KeyNotFound));
    alike(dict.get("b/0"), Err(ExtractionError::TooMuchNesting));
    let outer = Value::List(List(vec![list.clone(), dict.clone()]));
    alike(outer.get("0/0"), Ok(num(10)));
    alike(outer.get("1/a"), Ok(text("x")));
    alike(outer.get("0/0/0"), Err(ExtractionError::TooMuchNesting));
}

#[test]
fn typed_list_of_volumes_hands_out_a_volume() {
    let volume = Volume {
        shape: [2, 1, 1],
        affine: [[1; 4]; 3],
        data: TypedList::Int(vec![Int(1), Int(2)]),
    };
    let list = Value::TypedList(TypedList::Volume(vec![volume.clone()]));
    alike(list.get("0"), Ok(Value::Volume(volume)));
}

#[test]
fn first_entry_with_a_key_wins() {
    let dict = Value::Dict(Dict(vec![("a".to_string(), num(1)), ("a".to_string(), num(2))]));
    alike(dict.get("a"), Ok(num(1)));
}

#[test]
fn get_helpers_follow_the_rest_of_the_path() {
    let list = List(vec![num(1), Value::List(List(vec![num(2)]))]);
    alike(toolapi::value::extract::get_list(&list, &1, &[Index::Idx(0)]), Ok(num(2)));
    alike(toolapi::value::extract::get_list(&list, &0, &[]), Ok(num(1)));
    alike(
        toolapi::value::extract::get_list(&list, &2, &[]),
        Err(ExtractionError::IndexOutOfBounds)
    );
    let dict = Dict(vec![("k".to_string(), Value::List(List(vec![num(2)])))]);
    let k = "k".to_string();
    alike(toolapi::value::extract::get_dict(&dict, &k, &[Index::Idx(0)]), Ok(num(2)));
    alike(
        toolapi::value::extract::get_dict(&dict, &"x".to_string(), &[]),
        Err(ExtractionError::KeyNotFound)
    );
    let typed = TypedList::Bool(vec![Bool(false), Bool(true)]);
    alike(toolapi::value::extract::get_typed_list(&typed, &1), Ok(Value::Bool(Bool(true))));
    alike(
        toolapi::value::extract::get_typed_list(&typed, &2),
        Err(ExtractionError::IndexOutOfBounds)
    );
    let typed = TypedDict::Bool(vec![("t".to_string(), Bool(true))]);
    alike(
        toolapi::value::extract::get_typed_dict(&typed, &"t".to_string()),
        Ok(Value::Bool(Bool(true)))
    );
    alike(
        toolapi::value::extract::get_typed_dict(&typed, &"f".to_string()),
        Err(ExtractionError::KeyNotFound)
    );
}

#[test]
fn pointer_is_read_from_text() {
    alike(Pointer::from(""), Pointer(vec![]));
    alike(Pointer::from("a"), Pointer(vec![key("a")]));
    alike(Pointer::from("3"), Pointer(vec![Index::Idx(3)]));
    alike(
        Pointer::from("tissues/3/density"),
        Pointer(vec![key("tissues"), Index::Idx(3), key("density")])
    );
    alike(Pointer::from("empty//key"), Pointer(vec![key("empty"), key(""), key("key")]));
    alike(Pointer::from("/"), Pointer(vec![key(""), key("")]));
    alike(Pointer::from("a/"), Pointer(vec![key("a"), key("")]));
    alike(Pointer::from("2/some_property"), Pointer(vec![Index::Idx(2), key("some_property")]));
    alike(Pointer::from(7usize), Pointer(vec![Index::Idx(7)]));
    alike(Pointer::from("1/2".to_string()), Pointer(vec![Index::Idx(1), Index::Idx(2)]));
    alike(Pointer::parse("x/0"), Pointer(vec![key("x"), Index::Idx(0)]));
}

#[test]
fn numbers_are_read_as_the_standard_library_reads_them() {
    for piece in [
        "0", "007", "+5", "+", "-1", "1.5", " 1", "1 ", "12a", "", "٣", "18446744073709551615",
        "18446744073709551616", "99999999999999999999999", "+0", "++1", "1+",
    ] {
        let expected = match piece.parse::<usize>() {
            Ok(idx) => Index::Idx(idx),
            Err(_) => Index::Key(piece.to_string()),
        };
        if piece.is_empty() {
            alike(Pointer::from(piece), Pointer(vec![]));
            alike(Pointer::from("a/"), Pointer(vec![key("a"), expected]));
        } else {
            assert_eq!(Pointer::from(piece), Pointer(vec![expected]), "piece {piece:?}");
        }
    }
    alike(Pointer::from("+5"), Pointer(vec![Index::Idx(5)]));
    alike(Pointer::from("007"), Pointer(vec![Index::Idx(7)]));
    alike(toolapi::value::pointer::chars_of("aé/"), vec!['a', 'é', '/']);
}

#[test]
fn keys_may_hold_any_characters() {
    let dict = Value::Dict(Dict(vec![("grüße wörld".to_string(), num(1))]));
    alike(dict.get("grüße wörld"), Ok(num(1)));
}

#[test]
fn typed_list_knows_whether_it_is_empty() {
    assert!(TypedList::Float(vec![]).is_empty());
    assert!(!TypedList::Unit(vec![Unit]).is_empty());
    alike(TypedList::Str(vec![Str("a".to_string()), Str("b".to_string())]).len(), 2);
    alike(TypedList::Volume(vec![]).len(), 0);
}

#[test]
fn copies_are_equal_and_independent() {
    for value in every_variant() {
        let copy = toolapi::value::copy::clone_value(&value);
        alike(copy, value);
    }
    let mut list = List(vec![num(1)]);
    let copy = list.clone();
    list.0.push(num(2));
    alike(copy, List(vec![num(1)]));
    alike(toolapi::value::copy::copy_items(&vec![Int(1), Int(2)]), vec![Int(1), Int(2)]);
}

#[test]
fn a_pointer_is_followed_as_it_is() {
    let value = nested();
    let path = Pointer(vec![key("tissues"), Index::Idx(1), Index::Idx(0)]);
    alike(value.get_at(&path), Ok(num(10)));
    alike(value.get(path.clone()), Ok(num(10)));
    alike(value.get_at(&Pointer(vec![])), Ok(nested()));
    alike(value.get_at(&Pointer(vec![Index::Idx(0)])), Err(ExtractionError::IndexForDict));
}
