use parser_fuck::Char;
use parser_fuck::CharSpan;
use parser_fuck::ComLoc;
use parser_fuck::ComLocRange;
use parser_fuck::LocRange;
use parser_fuck::ComString;
use parser_fuck::Dyn;
use parser_fuck::JsonParserError;
use parser_fuck::Parser;
use parser_fuck::SpanOf;
use parser_fuck::one;
use parser_fuck::range_of_many1;
use parser_fuck::range_of_many1_many;
use parser_fuck::range_of_optrange_range;
use parser_fuck::range_of_range_many1;
use parser_fuck::range_of_range_optrange;
use parser_fuck::satisfy;
use parser_fuck::substr;
use std::collections::HashMap;
use std::ops::Range;

pub type JsonResults<T> = Result<T, JsonParserError>;
pub type JsonResult = Result<JsonVal, JsonParserError>;

#[derive(Debug, Clone, PartialEq)]
pub enum JsonVal {
    String(String),
    Number(f64),
    Object(HashMap<String, JsonVal>),
    Array(Vec<JsonVal>),
    Bool(bool),
    Null,
}


/// Locate a failed range: an empty range (a fully restored sub-failure)
/// is pinned to the location of the token it stopped in front of.
fn loc_of_range(i: &CharSpan, ep: &Range<usize>) -> LocRange {
    match i.loc_range(ep.start..ep.end) {
        Some(l) => l,
        None => {
            let p = i.loc(ep.start).unwrap();
            LocRange::new(p, p)
        },
    }
}

pub fn json(code: &str) -> JsonResult {
    let code = code.span();
    let (r, _span) = value(code);
    r.unwrap()
}

fn boolval(input: CharSpan) -> (Option<JsonVal>, CharSpan) {
    substr("true")
        .map(|_| JsonVal::Bool(true))
        .or(substr("false").map(|_| JsonVal::Bool(false)))
        .parse(input)
}

fn nullval(input: CharSpan) -> (Option<JsonVal>, CharSpan) {
    substr("null").map(|_| JsonVal::Null).parse(input)
}

fn num_start(input: CharSpan) -> (Option<Range<usize>>, CharSpan) {
    satisfy(|c: Char| {
        c.char(|c: char, _| c != '0' && c.is_ascii_digit()).unwrap_or(false)
    })
    .parse(input)
}

fn num_body(input: CharSpan) -> (Option<Range<usize>>, CharSpan) {
    satisfy(|c: Char| c.char(|c: char, _| c.is_ascii_digit()).unwrap_or(false)).parse(input)
}

fn numberval(input: CharSpan) -> (Option<JsonVal>, CharSpan) {
    let p = one('-')
        .may()
        .and(
            one('0').or(Dyn::new(num_start)
                .many1()
                .and(Dyn::new(num_body).many())
                .map(range_of_many1_many)),
        )
        .map(range_of_optrange_range)
        .and(
            one('.')
                .and(Dyn::new(num_body).many1())
                .map(range_of_range_many1)
                .may(),
        )
        .map(range_of_range_optrange)
        .and(
            one('e')
                .or(one('E'))
                .and(one('-').or(one('+')).may())
                .map(range_of_range_optrange)
                .and(Dyn::new(num_body).many1())
                .map(range_of_range_many1)
                .may(),
        )
        .map(range_of_range_optrange);
    let (r, input) = p.parse(input);
    match r {
        Some(v) => {
            let s: String = input.com_string(v).unwrap();
            let v: f64 = s.parse::<f64>().unwrap();
            (Some(JsonVal::Number(v)), input)
        },
        None => (None, input),
    }
}

fn u_esc(input: CharSpan) -> (Option<char>, CharSpan) {
    let p = one('u').and(
        satisfy(|c: Char| c.char(|c: char, _| c.is_digit(16)).unwrap_or(false)).some(4),
    );
    let (r, input) = p.parse(input);
    match r {
        Some((_, u)) => {
            let s = input.com_string(range_of_many1(u)).unwrap();
            let hex: u32 = u32::from_str_radix(&s, 16).unwrap();
            let c = std::char::from_u32(hex).unwrap();
            (Some(c), input)
        },
        None => (None, input),
    }
}

fn str_esc(input: CharSpan) -> (Option<Result<char, JsonParserError>>, CharSpan) {
    one('\\')
        .and(
            one('"')
                .map(|_| '"')
                .or(one('\\').map(|_| '\\'))
                .or(one('/').map(|_| '/'))
                .or(one('b').map(|_| '\u{8}'))
                .or(one('f').map(|_| '\u{c}'))
                .or(one('n').map(|_| '\n'))
                .or(one('r').map(|_| '\r'))
                .or(one('t').map(|_| '\t'))
                .or(Dyn::new(u_esc))
                .map(|v: char| Result::<char, JsonParserError>::Ok(v))
                .or_trans(|i: CharSpan, ep: Range<usize>| {
                    let loc = loc_of_range(&i, &ep);
                    Err(JsonParserError {
                        loc,
                        msg: "Illegal escape character".to_string(),
                    })
                }),
        )
        .map(|(_, v): (Range<usize>, Result<char, JsonParserError>)| v)
        .parse(input)
}

fn plain_char(input: CharSpan) -> (Option<Result<char, JsonParserError>>, CharSpan) {
    let (r, input) = satisfy(|c: Char| c != '"').parse(input);
    match r {
        Some(i) => {
            let s = input.com_string(i).unwrap();
            let c = s.chars().next().unwrap();
            (Some(Ok(c)), input)
        },
        None => (None, input),
    }
}

fn ctrl_char(input: CharSpan) -> (Option<Result<char, JsonParserError>>, CharSpan) {
    let (r, input) = satisfy(|c: Char| {
        c == '\u{8}' || c == '\u{c}' || c == '\n' || c == '\r' || c == '\t'
    })
    .parse(input);
    match r {
        Some(i) => {
            let loc = input.loc_range(i).unwrap();
            (
                Some(Err(JsonParserError {
                    loc,
                    msg: "Control characters are not allowed in the string".to_string(),
                })),
                input,
            )
        },
        None => (None, input),
    }
}

fn str_body(input: CharSpan) -> (Option<Result<char, JsonParserError>>, CharSpan) {
    Dyn::new(ctrl_char).or(Dyn::new(str_esc)).or(Dyn::new(plain_char)).parse(input)
}

fn stringval(input: CharSpan) -> (Option<JsonResult>, CharSpan) {
    one('"')
        .and(Dyn::new(str_body).many())
        .and(one('"'))
        .map(
            |((_, v), _): (
                (Range<usize>, Vec<Result<char, JsonParserError>>),
                Range<usize>,
            )| {
                let mut val = String::new();
                for c in v {
                    let c = c?;
                    val.push(c);
                }
                let jv = JsonVal::String(val);
                Ok(jv)
            },
        )
        .parse(input)
}

fn whitespace(input: CharSpan) -> (Option<()>, CharSpan) {
    satisfy(|c: Char| c.is_wrap() || c == ' ' || c == '\t')
        .many()
        .map(|_| ())
        .parse(input)
}

fn value(input: CharSpan) -> (Option<JsonResult>, CharSpan) {
    Dyn::new(whitespace)
        .and(
            Dyn::new(stringval)
                .or(Dyn::new(object))
                .or(Dyn::new(array))
                .or(Dyn::new(numberval)
                    .or(Dyn::new(boolval))
                    .or(Dyn::new(nullval))
                    .map(|v: JsonVal| Ok(v))),
        )
        .and(Dyn::new(whitespace))
        .map(|((_, v), _): (((), JsonResult), ())| v)
        .or_trans(|i: CharSpan, ep: Range<usize>| {
            let loc = loc_of_range(&i, &ep);
            Err(JsonParserError {
                loc,
                msg: "Invaild character".to_string(),
            })
        })
        .parse(input)
}

fn array(input: CharSpan) -> (Option<JsonResult>, CharSpan) {
    one('[')
        .and(
            Dyn::new(value)
                .and(one(',').and(Dyn::new(value)).many())
                .map(
                    |(f, v): (JsonResult, Vec<(Range<usize>, JsonResult)>)| -> JsonResults<
                        Vec<JsonVal>,
                    > {
                        let mut vals: Vec<JsonVal> = vec![f?];
                        for vv in v {
                            let (_, val) = vv;
                            vals.push(val?);
                        }
                        Ok(vals)
                    },
                )
                .or(Dyn::new(whitespace).map(|_| Ok(vec![]))),
        )
        .and(one(']').map(|_| Ok(())).or_trans(|i: CharSpan, ep: Range<usize>| {
            let loc = loc_of_range(&i, &ep);
            Err(JsonParserError {
                loc,
                msg: "Need \"]\" but not found it".to_string(),
            })
        }))
        .map(
            |((_, v), e): ((Range<usize>, JsonResults<Vec<JsonVal>>), JsonResults<()>)| {
                e?;
                let v = v?;
                Ok(JsonVal::Array(v))
            },
        )
        .parse(input)
}

fn kv(input: CharSpan) -> (Option<JsonResults<(String, JsonVal)>>, CharSpan) {
    Dyn::new(whitespace)
        .and(Dyn::new(stringval))
        .and(Dyn::new(whitespace))
        .and(one(':').map(|v: Range<usize>| Ok(v)).or_trans(
            |i: CharSpan, ep: Range<usize>| {
                let loc = loc_of_range(&i, &ep);
                Err(JsonParserError {
                    loc,
                    msg: "Need \":\" but not found it".to_string(),
                })
            },
        ))
        .and(Dyn::new(value))
        .map(
            |((((_, k), _), col), v): (
                ((((), JsonResult), ()), JsonResults<Range<usize>>),
                JsonResult,
            )| {
                let k = k?;
                let _ = col?;
                let v = v?;
                let key = if let JsonVal::String(key) = k {
                    key
                } else {
                    panic!("never")
                };
                Ok((key, v))
            },
        )
        .parse(input)
}

fn object(input: CharSpan) -> (Option<JsonResult>, CharSpan) {
    one('{')
        .and(
            Dyn::new(kv)
                .and(one(',').and(Dyn::new(kv)).many())
                .map(
                    |(f, vs): (
                        JsonResults<(String, JsonVal)>,
                        Vec<(Range<usize>, JsonResults<(String, JsonVal)>)>,
                    )| -> JsonResults<HashMap<String, JsonVal>> {
                        let mut vals: HashMap<String, JsonVal> = HashMap::new();
                        let (k, v) = f?;
                        vals.insert(k, v);
                        for vv in vs {
                            let (_, val) = vv;
                            let (k, v) = val?;
                            vals.insert(k, v);
                        }
                        Ok(vals)
                    },
                )
                .or(Dyn::new(whitespace).map(|_| Ok(HashMap::new()))),
        )
        .and(one('}').map(|_| Ok(())).or_trans(|i: CharSpan, ep: Range<usize>| {
            let loc = loc_of_range(&i, &ep);
            Err(JsonParserError {
                loc,
                msg: "Need \"}\" but not found it".to_string(),
            })
        }))
        .map(
            |((_, v), e): (
                (Range<usize>, JsonResults<HashMap<String, JsonVal>>),
                JsonResults<()>,
            )| {
                e?;
                let v = v?;
                Ok(JsonVal::Object(v))
            },
        )
        .parse(input)
}

#[test]
fn test_json_test_json() {
    let code = "{ \"a\": 1, \"b\": true, \"c\": [null, 1.5, false], \"d\": { \"v\": \"asd\" } }";
    let r = json(code);
    println!("{:?}", r);
    assert_eq!(
        r,
        Ok(JsonVal::Object({
            let mut map = HashMap::new();
            map.insert("a".to_string(), JsonVal::Number(1.0));
            map.insert("b".to_string(), JsonVal::Bool(true));
            map.insert(
                "c".to_string(),
                JsonVal::Array(vec![
                    JsonVal::Null,
                    JsonVal::Number(1.5),
                    JsonVal::Bool(false),
                ]),
            );
            map.insert(
                "d".to_string(),
                JsonVal::Object({
                    let mut map = HashMap::new();
                    map.insert("v".to_string(), JsonVal::String("asd".to_string()));
                    map
                }),
            );
            map
        }))
    )
}

#[test]
fn test_json_test_bool_true() {
    let code = "true".span();
    let (r, _s) = boolval(code);
    println!("{:?}", r);
    assert_eq!(r, Some(JsonVal::Bool(true)))
}

#[test]
fn test_json_test_bool_false() {
    let code = "false".span();
    let (r, _s) = boolval(code);
    println!("{:?}", r);
    assert_eq!(r, Some(JsonVal::Bool(false)))
}

#[test]
fn test_json_test_bool_none() {
    let code = "123".span();
    let (r, _s) = boolval(code);
    println!("{:?}", r);
    assert_eq!(r, None)
}

#[test]
fn test_json_test_null() {
    let code = "null".span();
    let (r, _s) = nullval(code);
    println!("{:?}", r);
    assert_eq!(r, Some(JsonVal::Null))
}

#[test]
fn test_json_test_null_none() {
    let code = "true".span();
    let (r, _s) = nullval(code);
    println!("{:?}", r);
    assert_eq!(r, None)
}

#[test]
fn test_json_test_number() {
    let code = "-123.456e-11".span();
    let (r, _s) = numberval(code);
    println!("{:?}", r);
    assert_eq!(r, Some(JsonVal::Number(-123.456e-11)))
}

#[test]
fn test_json_test_number2() {
    let code = "123.".span();
    let (r, _s) = numberval(code);
    println!("{:?}", r);
    assert_eq!(r, Some(JsonVal::Number(123.)))
}

#[test]
fn test_json_test_number3() {
    let code = "0.456".span();
    let (r, _s) = numberval(code);
    println!("{:?}", r);
    assert_eq!(r, Some(JsonVal::Number(0.456)))
}

#[test]
fn test_json_test_number4() {
    let code = "-0".span();
    let (r, _s) = numberval(code);
    println!("{:?}", r);
    assert_eq!(r, Some(JsonVal::Number(-0.0)))
}

#[test]
fn test_json_test_number5() {
    let code = "123e+123".span();
    let (r, _s) = numberval(code);
    println!("{:?}", r);
    assert_eq!(r, Some(JsonVal::Number(123e+123)))
}

#[test]
fn test_json_test_number6() {
    let code = "123".span();
    let (r, _s) = numberval(code);
    println!("{:?}", r);
    assert_eq!(r, Some(JsonVal::Number(123f64)))
}

#[test]
fn test_json_test_number_none() {
    let code = "asd".span();
    let (r, _s) = numberval(code);
    println!("{:?}", r);
    assert_eq!(r, None)
}

#[test]
fn test_json_test_string() {
    let code = "\"asd\"".span();
    let (r, _s) = stringval(code);
    println!("{:?}", r);
    assert_eq!(r, Some(Ok(JsonVal::String("asd".to_string()))))
}

#[test]
fn test_json_test_string2() {
    let code = "\"asd\\n\"".span();
    let (r, _s) = stringval(code);
    println!("{:?}", r);
    assert_eq!(r, Some(Ok(JsonVal::String("asd\n".to_string()))))
}

#[test]
fn test_json_test_string3() {
    let code = "\"asd\\u2a5f\"".span();
    let (r, _s) = stringval(code);
    println!("{:?}", r);
    assert_eq!(r, Some(Ok(JsonVal::String("asd\u{2a5f}".to_string()))))
}

#[test]
fn test_json_test_string4() {
    let code = "\"asd\n\"".span();
    let (r, _s) = stringval(code);
    println!("{:?}", r);
    let loc = (4, 0, 4);
    let msg = "Control characters are not allowed in the string".to_string();
    let err = JsonParserError {
        loc: loc.into(),
        msg,
    };
    assert_eq!(r, Some(Err(err)))
}

#[test]
fn test_json_test_string5() {
    let code = "\"asd\\a\"".span();
    let (r, _s) = stringval(code);
    println!("{:?}", r);
    let loc = (5, 0, 5);
    let msg = "Illegal escape character".to_string();
    let err = JsonParserError {
        loc: loc.into(),
        msg,
    };
    assert_eq!(r, Some(Err(err)))
}

#[test]
fn test_json_test_string_none() {
    let code = "asd".span();
    let (r, _s) = stringval(code);
    println!("{:?}", r);
    assert_eq!(r, None)
}

#[test]
fn test_json_test_array() {
    let code = "[ 1, 2, 3 ]".span();
    let (r, _s) = array(code);
    println!("{:?}", r);
    assert_eq!(
        r,
        Some(Ok(JsonVal::Array(vec![
            JsonVal::Number(1.0),
            JsonVal::Number(2.0),
            JsonVal::Number(3.0)
        ])))
    )
}

#[test]
fn test_json_test_array2() {
    let code = "[ 1, 2 3 ]".span();
    let (r, _s) = array(code);
    println!("{:?}", r);
    assert_eq!(
        r,
        Some(Err(JsonParserError {
            loc: (7, 0, 7).into(),
            msg: "Need \"]\" but not found it".to_string()
        }))
    )
}

#[test]
fn test_json_test_array3() {
    let code = "[ 1, 2 ".span();
    let (r, _s) = array(code);
    println!("{:?}", r);
    assert_eq!(
        r,
        Some(Err(JsonParserError {
            loc: (6, 0, 6).into(),
            msg: "Need \"]\" but not found it".to_string()
        }))
    )
}

#[test]
fn test_json_test_object() {
    let code = "{ \"a\" : 1 }".span();
    let (r, _s) = object(code);
    println!("{:?}", r);
    assert_eq!(
        r,
        Some(Ok(JsonVal::Object({
            let mut map = HashMap::new();
            map.insert("a".to_string(), JsonVal::Number(1.0));
            map
        })))
    )
}

#[test]
fn test_json_test_object2() {
    let code = "{ \"a\" 1 }".span();
    let (r, _s) = object(code);
    println!("{:?}", r);
    assert_eq!(
        r,
        Some(Err(JsonParserError {
            loc: (6, 0, 6).into(),
            msg: "Need \":\" but not found it".to_string()
        }))
    )
}

#[test]
fn test_json_test_object3() {
    let code = "{ \"a\" : 1 2 }".span();
    let (r, _s) = object(code);
    println!("{:?}", r);
    assert_eq!(
        r,
        Some(Err(JsonParserError {
            loc: (10, 0, 10).into(),
            msg: "Need \"}\" but not found it".to_string()
        }))
    )
}

#[test]
fn test_json_test_object4() {
    let code = "{ \"a\" : 1 ".span();
    let (r, _s) = object(code);
    println!("{:?}", r);
    assert_eq!(
        r,
        Some(Err(JsonParserError {
            loc: (9, 0, 9).into(),
            msg: "Need \"}\" but not found it".to_string()
        }))
    )
}

