use toolapi::value::atomic::{Bool, Float, Int, Str};
use toolapi::value::convert::Variant;
use toolapi::value::typed::{TypedDict, TypedList};
use toolapi::{ExtractionError, LookupError, Value, ValueDict};

/// Values have no `==`, since the order of the entries of a mapping says
/// nothing; what two values print as is compared instead.
fn alike<T: std::fmt::Debug>(left: T, right: T) {
    assert_eq!(format!("{left:?}"), format!("{right:?}"));
}

fn num(value: i64) -> Value {
    Value::Int(Int(value))
}

#[test]
fn new_dict_is_empty() {
    let dict = ValueDict::new();
    assert!(dict.is_empty());
    alike(dict.len(), 0);
    assert!(!dict.contains_key("a"));
    alike(dict.get("a"), None);
}

#[test]
fn insert_puts_and_replaces() {
    let mut dict = ValueDict::new();
    assert!(!dict.insert("a".to_string(), num(1)));
    assert!(!dict.insert("b".to_string(), num(2)));
    alike(dict.len(), 2);
    assert!(dict.insert("a".to_string(), num(3)));
    alike(dict.len(), 2);
    alike(dict.get("a"), Some(num(3)));
    alike(dict.get("b"), Some(num(2)));
    assert!(dict.contains_key("a"));
    assert!(!dict.is_empty());
}

#[test]
fn take_removes_the_entry() {
    let mut dict = ValueDict::new();
    dict.insert("a".to_string(), num(1));
    dict.insert("b".to_string(), num(2));
    alike(dict.take("a"), Ok(num(1)));
    alike(dict.len(), 1);
    alike(dict.take("a"), Err(LookupError::KeyError("a".to_string())));
    alike(dict.len(), 1);
    alike(dict.get("b"), Some(num(2)));
}

#[test]
fn take_as_converts_or_says_what_was_there() {
    let mut dict = ValueDict::new();
    dict.insert("n".to_string(), num(42));
    dict.insert("flag".to_string(), Value::Bool(Bool(true)));
    alike(dict.take_as::<Int>("n"), Ok(Int(42)));
    alike(
        dict.take_as::<Int>("flag"),
        Err(LookupError::ConversionError(ExtractionError::TypeMismatch {
            from: "Bool",
            into: "Int"
        }))
    );
    alike(dict.len(), 0);
    alike(dict.take_as::<Int>("n"), Err(LookupError::KeyError("n".to_string())));
}

#[test]
fn entries_come_out_once_per_key() {
    let mut dict = ValueDict::new();
    dict.insert("a".to_string(), num(1));
    dict.insert("b".to_string(), num(2));
    dict.insert("a".to_string(), num(3));
    let copy = dict.clone();
    let mut entries = dict.into_entries();
    entries.sort_by(|x, y| x.0.cmp(&y.0));
    alike(entries, vec![("a".to_string(), num(3)), ("b".to_string(), num(2))]);
    alike(copy.get("a"), Some(num(3)));
    alike(copy.len(), 2);
}

#[test]
fn values_wrap_and_unwrap() {
    alike(Int(5).wrap(), num(5));
    alike(Int::unwrap(num(5)), Ok(Int(5)));
    alike(num(5).extract::<Int>(), Ok(Int(5)));
    alike(
        num(5).extract::<Str>(),
        Err(ExtractionError::TypeMismatch { from: "Int", into: "Str" })
    );
    alike(num(5).kind_name(), "Int");
    alike(Float::name(), "Float");
}

#[test]
fn typed_lists_wrap_and_unwrap() {
    let list = Int::wrap_list(vec![Int(1), Int(2)]);
    alike(list.clone(), TypedList::Int(vec![Int(1), Int(2)]));
    alike(Int::unwrap_list(list.clone()), Ok(vec![Int(1), Int(2)]));
    alike(
        Bool::unwrap_list(list.clone()),
        Err(ExtractionError::TypeMismatch { from: "Vec<Int>", into: "Vec<Bool>" })
    );
    alike(Value::TypedList(list).extract_list::<Int>(), Ok(vec![Int(1), Int(2)]));
    alike(
        num(1).extract_list::<Int>(),
        Err(ExtractionError::TypeMismatch { from: "Int", into: "Vec<Int>" })
    );
    alike(Int::list_name(), "Vec<Int>");
}

#[test]
fn typed_dicts_wrap_and_unwrap() {
    let entries = vec![("a".to_string(), Bool(true))];
    let dict = Bool::wrap_dict(entries.clone());
    alike(dict.clone(), TypedDict::Bool(entries.clone()));
    alike(Bool::unwrap_dict(dict.clone()), Ok(entries.clone()));
    alike(
        Int::unwrap_dict(dict.clone()),
        Err(ExtractionError::TypeMismatch {
            from: "HashMap<String, Bool>",
            into: "HashMap<String, Int>"
        })
    );
    alike(Value::TypedDict(dict.clone()).extract_dict::<Bool>(), Ok(entries));
    alike(
        Value::TypedDict(dict).extract::<Bool>(),
        Err(ExtractionError::TypeMismatch { from: "TypedDict", into: "Bool" })
    );
    alike(Bool::dict_name(), "HashMap<String, Bool>");
}

#[test]
fn floats_survive_as_bit_patterns() {
    let nan = f64::NAN.to_bits() | 1;
    let value = Value::Float(Float(nan));
    let back = value.get("").unwrap().extract::<Float>().unwrap();
    alike(back.0, nan);
    alike(f64::from_bits(Float((-0.0f64).to_bits()).0).to_bits(), (-0.0f64).to_bits());
}

#[test]
fn dynamic_dict_is_built_by_insert() {
    let mut dict = toolapi::value::dynamic::Dict::new();
    assert!(!dict.insert("a".to_string(), num(1)));
    assert!(!dict.insert("b".to_string(), num(2)));
    assert!(dict.insert("a".to_string(), num(3)));
    alike(dict.0.clone(), vec![("a".to_string(), num(3)), ("b".to_string(), num(2))]);
    alike(dict.get("a"), Some(num(3)));
    alike(dict.get("c"), None);
    alike(Value::Dict(dict).get("b"), Ok(num(2)));
}

#[test]
fn insert_replaces_what_a_lookup_sees() {
    let mut dict = toolapi::value::dynamic::Dict(vec![
        ("a".to_string(), num(1)),
        ("a".to_string(), num(2)),
    ]);
    assert!(dict.insert("a".to_string(), num(3)));
    alike(dict.get("a"), Some(num(3)));
    alike(dict.0.len(), 2);
}

#[test]
fn well_formed_mappings_have_each_key_once() {
    let twice = toolapi::value::dynamic::Dict(vec![
        ("a".to_string(), num(1)),
        ("b".to_string(), num(2)),
        ("a".to_string(), num(3)),
    ]);
    assert!(!twice.is_wf());
    let once = toolapi::value::dynamic::Dict::from_entries(twice.0);
    assert!(once.is_wf());
    alike(once.0, vec![("a".to_string(), num(1)), ("b".to_string(), num(2))]);
    assert!(toolapi::value::dynamic::Dict::new().is_wf());
    assert!(TypedDict::Int(vec![("a".to_string(), Int(1)), ("b".to_string(), Int(1))]).is_wf());
    assert!(!TypedDict::Int(vec![("a".to_string(), Int(1)), ("a".to_string(), Int(2))]).is_wf());
    assert!(TypedDict::Str(vec![]).is_wf());
    assert!(toolapi::value::dict::has_distinct_keys(&vec![("x".to_string(), 1u8)]));
    assert!(!toolapi::value::dict::has_distinct_keys(&vec![
        ("x".to_string(), 1u8),
        ("y".to_string(), 2u8),
        ("y".to_string(), 3u8),
    ]));
}
