use athn_document::email::EmailText;
use athn_document::form::{
    BoolField, ConditionalProperty, DateField, EmailField, FileField, FloatField, FormField,
    GlobalProperties, IntField, ListField, StringField, SubmitField, TelField, ID,
};
use athn_document::number::FloatLiteral;
use athn_document::property::{tokenize, Key};
use athn_document::text::chars_of;
use athn_document::time::Timestamp;
use athn_document::ParseError;
use std::time::{SystemTime, UNIX_EPOCH};

fn float(text: &str) -> FloatLiteral {
    FloatLiteral::new(&chars_of(text)).unwrap()
}

fn email(text: &str) -> EmailText {
    EmailText::new(&chars_of(text)).unwrap()
}

fn timestamp(text: &str) -> Timestamp {
    let time: SystemTime = text.parse::<humantime::Timestamp>().unwrap().into();
    let since = time.duration_since(UNIX_EPOCH).unwrap();
    Timestamp { before_epoch: false, secs: since.as_secs(), nanos: since.subsec_nanos() }
}

fn plain<T>() -> GlobalProperties<T> {
    GlobalProperties { optional: false, label: None, default: None, conditional: None }
}

#[test]
fn basic_float_field() {
    let expected = FormField::Float(
        ID::new("Test").unwrap(),
        FloatField {
            global: GlobalProperties {
                optional: false,
                label: None,
                default: None,
                conditional: None,
            },
            min: None,
            max: Some(float("100.5")),
            step: None,
            positive: false,
        },
    );

    let line = "Test:float \\max 100.5";

    let form = FormField::parse(line).unwrap();

    assert_eq!(form, expected);
    match form {
        FormField::Float(_, field) => {
            assert_eq!(field.max.unwrap().text().parse::<f64>(), Ok(100.5));
        }
        other => panic!("unexpected field {:?}", other),
    }
}

#[test]
fn invalid_float_field() {
    let line = "Test:float \\max 100 \\default 1o";

    let form = FormField::parse(line);

    assert!(form.is_err());
    assert_eq!(form, Err(ParseError::InvalidFloat));
}

#[test]
fn advanced_float_field() {
    let expected = FormField::Float(
        ID::new("float").unwrap(),
        FloatField {
            global: GlobalProperties {
                optional: false,
                label: Some("This is a test".to_string()),
                default: Some(float("2000000.0")),
                conditional: None,
            },
            min: Some(float("10")),
            max: Some(float("5000000")),
            step: Some(float("0.5")),
            positive: true,
        },
    );

    let line = "float:float \\label This is a test \\positive \\min 10 \\max 5000000 \\default 2000000.0 \\step 0.5";

    let form = FormField::parse(line).unwrap();

    assert_eq!(form, expected);
    match form {
        FormField::Float(_, field) => {
            assert_eq!(field.global.default.unwrap().text().parse::<f64>(), Ok(2000000.0));
            assert_eq!(field.min.unwrap().text().parse::<f64>(), Ok(10.0));
            assert_eq!(field.max.unwrap().text().parse::<f64>(), Ok(5000000.0));
            assert_eq!(field.step.unwrap().text().parse::<f64>(), Ok(0.5));
        }
        other => panic!("unexpected field {:?}", other),
    }
}

#[test]
fn basic_int_field() {
    let expected = FormField::Integer(
        ID::new("Test").unwrap(),
        IntField {
            global: GlobalProperties {
                optional: false,
                label: None,
                default: None,
                conditional: None,
            },
            min: None,
            max: Some(100),
            step: None,
            positive: false,
        },
    );

    let line = "Test:int \\max 100";

    let form = FormField::parse(line).unwrap();

    assert_eq!(form, expected);
}

#[test]
fn invalid_int_field() {
    let line = "Test:int \\max 100 \\default 1o";

    let form = FormField::parse(line);

    assert!(form.is_err());
    assert_eq!(form, Err(ParseError::InvalidInteger));
}

#[test]
fn advanced_int_field() {
    let expected = FormField::Integer(
        ID::new("int").unwrap(),
        IntField {
            global: GlobalProperties {
                optional: false,
                label: Some("This is a test".to_string()),
                default: Some(200),
                conditional: None,
            },
            min: Some(10),
            max: Some(500),
            step: Some(5),
            positive: true,
        },
    );

    let line =
        "int:int \\label This is a test \\positive \\min 10 \\max 500 \\default 200 \\step 5";

    let form = FormField::parse(line).unwrap();

    assert_eq!(form, expected);
}

#[test]
fn basic_string_field() {
    let expected = FormField::String(
        ID::new("string").unwrap(),
        StringField {
            global: GlobalProperties {
                optional: false,
                label: Some("This is a test".to_string()),
                default: None,
                conditional: None,
            },
            min: None,
            max: None,
            multiline: false,
            secret: false,
            variant: None,
        },
    );

    let line = "string:string \\label This is a test";

    let form = FormField::parse(line).unwrap();

    assert_eq!(form, expected);
}

#[test]
fn advanced_string_field() {
    let expected = FormField::String(
        ID::new("string").unwrap(),
        StringField {
            global: GlobalProperties {
                optional: false,
                label: Some("This is a test".to_string()),
                default: Some("Fill me out".to_string()),
                conditional: Some(ConditionalProperty {
                    inverse: true,
                    target: ID::new("other_id").unwrap(),
                }),
            },
            min: Some(10),
            max: Some(500),
            multiline: true,
            secret: false,
            variant: None,
        },
    );

    let line =
        "string:string \\label This is a test \\multiline \\min 10 \\max 500 \\default Fill me out \\!conditional other_id";

    let form = FormField::parse(line).unwrap();

    assert_eq!(form, expected);

    let short =
        "string:string \\l This is a test \\multiline \\min 10 \\max 500 \\d Fill me out \\!c other_id";

    assert_eq!(FormField::parse(short).unwrap(), expected);
}

#[test]
fn enum_string_field() {
    let expected = FormField::String(
        ID::new("string").unwrap(),
        StringField {
            global: GlobalProperties {
                optional: false,
                label: Some("This is a test".to_string()),
                default: None,
                conditional: None,
            },
            min: None,
            max: None,
            multiline: false,
            secret: false,
            variant: Some(vec![
                "Variant 1".to_string(),
                "Variant 2".to_string(),
                "Variant 3".to_string(),
            ]),
        },
    );

    let line = "string:string \\label This is a test \\variant Variant 1 \\variant Variant 2 \\variant Variant 3";

    let form = FormField::parse(line).unwrap();

    assert_eq!(form, expected);

    let short = "string:string \\l This is a test \\e Variant 1 \\variant Variant 2 \\e Variant 3";

    assert_eq!(FormField::parse(short).unwrap(), expected);
}

#[test]
fn submit_field_with_dest() {
    let expected = FormField::Submit(
        ID::new("Send").unwrap(),
        SubmitField {
            destination: "/destination".to_string(),
            label: None,
            redirect: false,
        },
    );

    let line = "Send:submit \\destination /destination";

    let document = FormField::parse(line).unwrap();

    assert_eq!(document, expected);
    assert_eq!(FormField::parse("Send:submit \\dest /destination").unwrap(), expected);
}

#[test]
fn submit_field_with_redirect() {
    let expected = FormField::Submit(
        ID::new("Send").unwrap(),
        SubmitField {
            destination: "/destination".to_string(),
            label: None,
            redirect: true,
        },
    );

    let line = "Send:submit \\destination /destination \\redirect";

    let document = FormField::parse(line).unwrap();

    assert_eq!(document, expected);
}

#[test]
fn submit_field_with_redirect_and_label() {
    let expected = FormField::Submit(
        ID::new("Send").unwrap(),
        SubmitField {
            destination: "/destination".to_string(),
            label: Some("Click here to submit".to_string()),
            redirect: true,
        },
    );

    let line = "Send:submit \\destination /destination \\redirect \\label Click here to submit";

    let document = FormField::parse(line).unwrap();

    assert_eq!(document, expected);
}

#[test]
fn default_tel_field() {
    let expected = FormField::Phone(
        ID::new("test").unwrap(),
        TelField {
            global: GlobalProperties {
                optional: false,
                label: None,
                default: Some(String::from("+44 113 496 0000")),
                conditional: None,
            },
            country: None,
        },
    );

    let line = "test:tel \\default +44 113 496 0000";

    let form = FormField::parse(line).unwrap();

    assert_eq!(form, expected);
}

#[test]
fn basic_tel_field() {
    let expected = FormField::Phone(
        ID::new("test").unwrap(),
        TelField {
            global: GlobalProperties {
                optional: false,
                label: Some("This is a test".to_string()),
                default: None,
                conditional: None,
            },
            country: None,
        },
    );

    let line = "test:tel \\label This is a test";

    let form = FormField::parse(line).unwrap();

    assert_eq!(form, expected);
}

#[test]
fn invalid_email_field() {
    let line = "Test:email \\default invalid.email";

    let form = FormField::parse(line);

    assert!(form.is_err());
    assert_eq!(form, Err(ParseError::InvalidEmail));
}

#[test]
fn default_email_field() {
    let expected = FormField::Email(
        ID::new("test").unwrap(),
        EmailField {
            global: GlobalProperties {
                optional: false,
                label: None,
                default: Some(email("foo@example.com")),
                conditional: None,
            },
        },
    );

    let line = "test:email \\default foo@example.com";

    let form = FormField::parse(line).unwrap();

    assert_eq!(form, expected);
    match form {
        FormField::Email(_, field) => {
            assert_eq!(field.global.default.unwrap().text(), "foo@example.com");
        }
        other => panic!("unexpected field {:?}", other),
    }
}

#[test]
fn basic_email_field() {
    let expected = FormField::Email(
        ID::new("test").unwrap(),
        EmailField {
            global: GlobalProperties {
                optional: false,
                label: Some("This is a test".to_string()),
                default: None,
                conditional: None,
            },
        },
    );

    let line = "test:email \\label This is a test";

    let form = FormField::parse(line).unwrap();

    assert_eq!(form, expected);
}

#[test]
fn default_date_field() {
    let expected = FormField::Date(
        ID::new("test").unwrap(),
        DateField {
            global: GlobalProperties {
                optional: true,
                label: None,
                default: Some(timestamp("2023-04-10T12:00:00")),
                conditional: None,
            },
            min: None,
            max: None,
            time: false,
            date: false,
        },
    );

    let line = "test:date \\optional \\default 2023-04-10T12:00:00";

    let form = FormField::parse(line).unwrap();

    assert_eq!(form, expected);
    match form {
        FormField::Date(_, field) => {
            assert_eq!(
                field.global.default,
                Some(Timestamp { before_epoch: false, secs: 1681128000, nanos: 0 })
            );
        }
        other => panic!("unexpected field {:?}", other),
    }
}

#[test]
fn now_date_field() {
    let now = Timestamp::now();
    let expected = FormField::Date(
        ID::new("test").unwrap(),
        DateField {
            global: GlobalProperties {
                optional: false,
                label: Some("This is a test".to_string()),
                default: None,
                conditional: None,
            },
            min: Some(now),
            max: None,
            time: false,
            date: false,
        },
    );

    let line = "test:date \\min now \\label This is a test";

    let form = FormField::parse_at(line, now).unwrap();

    assert_eq!(form, expected);

    let before = SystemTime::now().duration_since(UNIX_EPOCH).unwrap();
    let read = match FormField::parse(line).unwrap() {
        FormField::Date(_, field) => field.min.unwrap(),
        other => panic!("unexpected field {:?}", other),
    };
    let after = SystemTime::now().duration_since(UNIX_EPOCH).unwrap();
    assert!(!read.before_epoch);
    assert!(read.nanos < 1_000_000_000);
    assert!(before.as_secs() <= read.secs && read.secs <= after.as_secs());
}

#[test]
fn basic_date_field() {
    let expected = FormField::Date(
        ID::new("test").unwrap(),
        DateField {
            global: GlobalProperties {
                optional: false,
                label: None,
                default: None,
                conditional: None,
            },
            min: Some(timestamp("2023-06-01T00:00:00")),
            max: None,
            time: false,
            date: false,
        },
    );

    let line = "test:date \\min 2023-06-01T00:00:00";

    let form = FormField::parse(line).unwrap();

    assert_eq!(form, expected);
}

#[test]
fn basic_file_field() {
    let expected = FormField::File(
        ID::new("test").unwrap(),
        FileField {
            global: GlobalProperties {
                optional: false,
                label: Some("This is a test".to_string()),
                default: None,
                conditional: None,
            },
            max: Some(500000),
            allowed_types: None,
        },
    );

    let line = "test:file \\label This is a test \\max 500000";

    let form = FormField::parse(line).unwrap();

    assert_eq!(form, expected);
}

#[test]
fn enum_file_field() {
    let expected = FormField::File(
        ID::new("file").unwrap(),
        FileField {
            global: GlobalProperties {
                optional: false,
                label: Some("This is a test".to_string()),
                default: None,
                conditional: None,
            },
            max: None,
            allowed_types: Some(vec![
                "image/jpg".to_string(),
                "image/png".to_string(),
                "image/webp".to_string(),
            ]),
        },
    );

    let line =
        "file:file \\label This is a test \\type image/jpg \\type image/png \\type image/webp";

    let form = FormField::parse(line).unwrap();

    assert_eq!(form, expected);
}

#[test]
fn boolean_field() {
    let expected = FormField::Boolean(
        ID::new("Test").unwrap(),
        BoolField {
            global: GlobalProperties {
                optional: false,
                label: Some("Boolean field".to_string()),
                default: Some(true),
                conditional: None,
            },
        },
    );

    let line = "Test:bool \\label Boolean field \\default true";

    let form = FormField::parse(line).unwrap();

    assert_eq!(form, expected);
}

#[test]
fn optional_boolean_field() {
    let expected = FormField::Boolean(
        ID::new("Test").unwrap(),
        BoolField {
            global: GlobalProperties {
                optional: true,
                label: None,
                default: None,
                conditional: None,
            },
        },
    );

    let line = "Test:bool \\optional";

    let form = FormField::parse(line).unwrap();

    assert_eq!(form, expected);
    assert_eq!(FormField::parse("Test:bool \\?").unwrap(), expected);
}

#[test]
fn create_valid_id() {
    let valid_id = ID::new("valid_ID").unwrap();

    assert_eq!(valid_id.id_cloned(), "valid_ID".to_string());
    assert_eq!(valid_id.id(), "valid_ID".to_string());
}

#[test]
fn create_invalid_id() {
    assert!(ID::new("1nv4lid_ID").is_err());
    assert_eq!(ID::new("1nv4lid_ID"), Err(ParseError::InvalidId));
    assert_eq!(ID::new("with space"), Err(ParseError::InvalidId));
    assert_eq!(ID::new("ümlaut"), Err(ParseError::InvalidId));
    assert_eq!(ID::new("[a"), Err(ParseError::InvalidId));
    assert_eq!(ID::new("a`"), Err(ParseError::InvalidId));
    assert_eq!(ID::new("a{"), Err(ParseError::InvalidId));
    assert_eq!(ID::new("@A"), Err(ParseError::InvalidId));
    assert!(ID::new("").is_ok());
    assert!(ID::new("azAZ_").is_ok());
}

#[test]
fn label_shorthand_gives_the_same_field() {
    for kind in ["string", "int", "float", "bool", "file", "list", "date", "email", "tel"] {
        let long = FormField::parse(&format!("name:{} \\label This is a test", kind)).unwrap();
        let short = FormField::parse(&format!("name:{} \\l This is a test", kind)).unwrap();
        assert_eq!(long, short);
    }
    let long = FormField::parse("s:submit \\destination /x \\label This is a test").unwrap();
    let short = FormField::parse("s:submit \\dest /x \\l This is a test").unwrap();
    assert_eq!(long, short);
}

#[test]
fn shorthand_names_stand_for_the_long_ones() {
    let line: Vec<char> =
        "? \\optional \\l a \\label b \\d 1 \\default 2 \\c x \\conditional y \\!c z \\!conditional w \\dest /a \\destination /b \\e v \\variant w \\redirect \\min 1 \\max 2 \\step 3 \\positive \\multiline \\secret \\type t \\child k \\date \\time \\country c \\unknown u \\ \\L up"
            .chars()
            .collect();
    let keys: Vec<Key> = tokenize(&line).iter().map(|t| t.key).collect();

    assert_eq!(
        keys,
        vec![
            Key::Optional,
            Key::Optional,
            Key::Label,
            Key::Label,
            Key::Default,
            Key::Default,
            Key::Conditional,
            Key::Conditional,
            Key::NotConditional,
            Key::NotConditional,
            Key::Destination,
            Key::Destination,
            Key::Variant,
            Key::Variant,
            Key::Redirect,
            Key::Min,
            Key::Max,
            Key::Step,
            Key::Positive,
            Key::Multiline,
            Key::Secret,
            Key::MimeType,
            Key::Child,
            Key::Date,
            Key::Time,
            Key::Country,
            Key::Other,
            Key::Other,
            Key::Other,
        ]
    );
}

#[test]
fn tokens_split_at_space_and_backslash() {
    let line: Vec<char> = "l a b\\c \\d  x \\e\\f".chars().collect();
    let tokens = tokenize(&line);

    assert_eq!(tokens.len(), 3);
    assert_eq!(tokens[0].key, Key::Label);
    assert_eq!(tokens[0].value.iter().collect::<String>(), "a b\\c");
    assert_eq!(tokens[1].key, Key::Default);
    assert_eq!(tokens[1].value.iter().collect::<String>(), " x");
    assert_eq!(tokens[2].key, Key::Other);
    assert_eq!(tokens[2].value.iter().collect::<String>(), "");

    let empty: Vec<char> = Vec::new();
    let tokens = tokenize(&empty);
    assert_eq!(tokens.len(), 1);
    assert_eq!(tokens[0].key, Key::Other);
}

#[test]
fn file_field_with_default_is_rejected() {
    for line in [
        "f:file \\default x",
        "f:file \\d",
        "f:file \\label A file \\max 10 \\type image/png \\default a.png",
        "f:file \\optional \\d a.png \\max 10",
        "f:file \\default x \\conditional not an id",
        "f:file \\max nothing \\default x",
    ] {
        assert_eq!(FormField::parse(line), Err(ParseError::FileDefault));
    }
    assert!(FormField::parse("f:file \\max 10").is_ok());
}

#[test]
fn every_field_error_has_an_input() {
    assert_eq!(FormField::parse("no colon"), Err(ParseError::MissingFieldId));
    assert_eq!(FormField::parse("1d:int"), Err(ParseError::InvalidId));
    assert_eq!(FormField::parse("id:integer"), Err(ParseError::InvalidFieldType));
    assert_eq!(FormField::parse("id:"), Err(ParseError::InvalidFieldType));
    assert_eq!(FormField::parse("id: int"), Err(ParseError::InvalidFieldType));
    assert_eq!(FormField::parse("id:int\\max 1"), Err(ParseError::InvalidFieldType));
    assert_eq!(FormField::parse("s:submit"), Err(ParseError::MissingDestination));
    assert_eq!(FormField::parse("s:submit \\label x"), Err(ParseError::MissingDestination));
    assert_eq!(FormField::parse("s:string \\min 0"), Err(ParseError::InvalidBound));
    assert_eq!(FormField::parse("s:string \\max -1"), Err(ParseError::InvalidBound));
    assert_eq!(FormField::parse("s:string \\min"), Err(ParseError::InvalidBound));
    assert_eq!(FormField::parse("f:file \\max 1.5"), Err(ParseError::InvalidBound));
    assert_eq!(FormField::parse("i:int \\step 1.0"), Err(ParseError::InvalidInteger));
    assert_eq!(
        FormField::parse("i:int \\min 9223372036854775808"),
        Err(ParseError::InvalidInteger)
    );
    assert_eq!(FormField::parse("f:float \\min 1e"), Err(ParseError::InvalidFloat));
    assert_eq!(FormField::parse("b:bool \\default yes"), Err(ParseError::InvalidBoolean));
    assert_eq!(FormField::parse("b:bool \\default True"), Err(ParseError::InvalidBoolean));
    assert_eq!(FormField::parse("l:list \\default 0"), Err(ParseError::InvalidListBound));
    assert_eq!(FormField::parse("l:list \\max many"), Err(ParseError::InvalidListBound));
    assert_eq!(
        FormField::parse("l:list \\child good \\child b4d"),
        Err(ParseError::InvalidChildId)
    );
    assert_eq!(FormField::parse("d:date \\min tomorrow"), Err(ParseError::InvalidDate));
    assert_eq!(FormField::parse("d:date \\default 1969-01-01T00:00:00"), Err(ParseError::InvalidDate));
    assert_eq!(FormField::parse("e:email \\default a@"), Err(ParseError::InvalidEmail));
    assert_eq!(
        FormField::parse("t:tel \\conditional not an id"),
        Err(ParseError::InvalidConditionTarget)
    );
    assert_eq!(
        FormField::parse("t:string \\!c 4"),
        Err(ParseError::InvalidConditionTarget)
    );
}

#[test]
fn the_first_error_in_reading_order_is_reported() {
    assert_eq!(
        FormField::parse("i:int \\step x \\max y \\c 1 \\default z"),
        Err(ParseError::InvalidInteger)
    );
    assert_eq!(
        FormField::parse("i:int \\step x \\c 1 \\default 3"),
        Err(ParseError::InvalidConditionTarget)
    );
    assert_eq!(
        FormField::parse("s:string \\min 0 \\c 1"),
        Err(ParseError::InvalidConditionTarget)
    );
    assert_eq!(
        FormField::parse("l:list \\child 1 \\min 0"),
        Err(ParseError::InvalidListBound)
    );
    assert_eq!(FormField::parse("1:nothing"), Err(ParseError::InvalidId));
}

#[test]
fn the_first_of_repeated_properties_counts() {
    let field = FormField::parse("i:int \\max 1 \\max 2 \\l first \\label second \\c a \\!c b");

    assert_eq!(
        field.unwrap(),
        FormField::Integer(
            ID::new("i").unwrap(),
            IntField {
                global: GlobalProperties {
                    optional: false,
                    label: Some("first".to_string()),
                    default: None,
                    conditional: Some(ConditionalProperty {
                        inverse: false,
                        target: ID::new("a").unwrap(),
                    }),
                },
                min: None,
                max: Some(1),
                step: None,
                positive: false,
            }
        )
    );
}

#[test]
fn list_field_collects_its_children() {
    let field = FormField::parse("items:list \\min 1 \\max 5 \\d 2 \\child name \\child age");

    assert_eq!(
        field.unwrap(),
        FormField::List(
            ID::new("items").unwrap(),
            ListField {
                global: GlobalProperties {
                    optional: false,
                    label: None,
                    default: Some(2),
                    conditional: None,
                },
                min: Some(1),
                max: Some(5),
                children: Some(vec![ID::new("name").unwrap(), ID::new("age").unwrap()]),
            }
        )
    );
    assert_eq!(
        FormField::parse("items:list").unwrap(),
        FormField::List(
            ID::new("items").unwrap(),
            ListField { global: plain(), min: None, max: None, children: None }
        )
    );
}

#[test]
fn tel_field_takes_a_country() {
    assert_eq!(
        FormField::parse("t:tel \\country DK").unwrap(),
        FormField::Phone(
            ID::new("t").unwrap(),
            TelField { global: plain(), country: Some("DK".to_string()) }
        )
    );
}

#[test]
fn date_field_flags_and_fractions() {
    let field = FormField::parse("d:date \\date \\time \\max 2023-06-01 00:00:00.25Z").unwrap();

    assert_eq!(
        field,
        FormField::Date(
            ID::new("d").unwrap(),
            DateField {
                global: plain(),
                min: None,
                max: Some(Timestamp { before_epoch: false, secs: 1685577600, nanos: 250_000_000 }),
                time: true,
                date: true,
            }
        )
    );
}

#[test]
fn integers_are_read_exactly() {
    let read = |text: &str| match FormField::parse(&format!("i:int \\default {}", text)) {
        Ok(FormField::Integer(_, field)) => field.global.default,
        _ => None,
    };

    assert_eq!(read("0"), Some(0));
    assert_eq!(read("-0"), Some(0));
    assert_eq!(read("+15"), Some(15));
    assert_eq!(read("-15"), Some(-15));
    assert_eq!(read("0012"), Some(12));
    assert_eq!(read("9223372036854775807"), Some(i64::MAX));
    assert_eq!(read("-9223372036854775808"), Some(i64::MIN));
    assert_eq!(read("-9223372036854775809"), None);
    assert_eq!(read("9223372036854775808"), None);
    assert_eq!(read("99999999999999999999999999"), None);
    assert_eq!(read("000000000000000000000000001"), Some(1));
    assert_eq!(read("+"), None);
    assert_eq!(read("-"), None);
    assert_eq!(read("+-1"), None);
    assert_eq!(read("1_000"), None);
    assert_eq!(read("١"), None);
}

#[test]
fn float_literals_are_those_that_f64_reads() {
    let accepted = [
        "0", "1", "-1", "+1", "1.", ".5", "-.5", "1.5", "1e5", "1E5", "1e+5", "1e-5", "1.5e10",
        ".5E-3", "00.10", "inf", "-inf", "+Infinity", "INF", "nan", "NaN", "-nan", "infinity",
        "1.e2", "123456789012345678901234567890",
    ];
    let rejected = [
        "", "+", "-", ".", "e5", "1e", "1e+", "1.5.2", "1 ", " 1", "1f", "0x10", "infinit",
        "nane", "--1", "+-1", "1e5e5", "1e5.5", ".e1", "-.", "1,5", "in", "infinityy", "１",
    ];
    for text in accepted {
        assert!(FloatLiteral::new(&chars_of(text)).is_some(), "{:?}", text);
        assert!(text.parse::<f64>().is_ok(), "{:?}", text);
    }
    for text in rejected {
        assert!(FloatLiteral::new(&chars_of(text)).is_none(), "{:?}", text);
        assert!(text.parse::<f64>().is_err(), "{:?}", text);
    }
}

#[test]
fn email_text_follows_the_verdict() {
    let address = chars_of("foo@example.com");

    assert_eq!(EmailText::from_verdict(&address, true).unwrap().text(), "foo@example.com");
    assert_eq!(EmailText::from_verdict(&address, false), None);
    assert!(EmailText::new(&chars_of("invalid.email")).is_none());
    assert!(EmailText::new(&chars_of("Name <name@example.org>")).is_some());
}

#[test]
fn timestamps_come_from_readings() {
    assert_eq!(
        Timestamp::from_reading(Some((7, 9))),
        Some(Timestamp { before_epoch: false, secs: 7, nanos: 9 })
    );
    assert_eq!(Timestamp::from_reading(None), None);

    let now = Timestamp { before_epoch: true, secs: 1, nanos: 2 };
    assert_eq!(Timestamp::parse(&chars_of("now"), now), Some(now));
    assert_eq!(Timestamp::parse(&chars_of("Now"), now), None);
    assert_eq!(
        Timestamp::parse(&chars_of("1970-01-01T00:00:01"), now),
        Some(Timestamp { before_epoch: false, secs: 1, nanos: 0 })
    );
    assert_eq!(Timestamp::parse(&chars_of("1970-13-01T00:00:01"), now), None);
}

#[test]
fn messages_are_distinct() {
    let all = [
        ParseError::MetadataLineTooShort,
        ParseError::InvalidMetadataTag,
        ParseError::InvalidCacheValue,
        ParseError::InvalidHeaderLine,
        ParseError::MissingDelimiter,
        ParseError::TooManyForms,
        ParseError::InvalidId,
        ParseError::MissingFieldId,
        ParseError::InvalidFieldType,
        ParseError::MissingDestination,
        ParseError::FileDefault,
        ParseError::InvalidBound,
        ParseError::InvalidInteger,
        ParseError::InvalidFloat,
        ParseError::InvalidBoolean,
        ParseError::InvalidListBound,
        ParseError::InvalidChildId,
        ParseError::InvalidDate,
        ParseError::InvalidEmail,
        ParseError::InvalidConditionTarget,
    ];
    for (i, a) in all.iter().enumerate() {
        assert!(!a.message().is_empty());
        for b in all.iter().skip(i + 1) {
            assert_ne!(a.message(), b.message());
        }
    }
    assert_eq!(ParseError::InvalidId.message(), "Found form field with invalid ID");
}
