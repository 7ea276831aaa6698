use flatcat::catter::{flatten, Catter, JsonCatter, KeyPath, PlainCatter, TomlCatter, YamlCatter};
use flatcat::catter::json::JsonCatterOpts;
use flatcat::catter::yaml::YamlCatterOpts;
use flatcat::input::InputReader;
use flatcat::node::{whole_numeral, Node, Number};
use flatcat::output::OutputWriter;
use flatcat::{FlatCat, FlatCatError, FlatCatOpts, Format, FormatHint, Input, Output, OutputOpts};

fn bare() -> OutputOpts {
    OutputOpts::new().with_color(false)
}

fn lines_of(flatcat: &FlatCat) -> Vec<String> {
    flatcat.output().written().clone()
}

fn cat_json(opts: OutputOpts, text: &str) -> Vec<String> {
    let mut flatcat = FlatCat::new(FlatCatOpts::new(), Output::from_stdout(opts)).unwrap();
    let input = Input::from_read(text.as_bytes().to_vec()).with_format_hint(FormatHint::json());
    flatcat.cat(input).unwrap();
    lines_of(&flatcat)
}

fn integer(text: &str) -> Node {
    Node::Number(Number { text: text.to_string(), float: false })
}

#[test]
fn traversal_order() {
    let lines = cat_json(bare(), r#"{"a":1,"b":[2,3]}"#);

    assert_eq!(lines, vec![".a: 1\n", ".b[0]: 2\n", ".b[1]: 3\n"]);
}

#[test]
fn empty_containers_emit_nothing() {
    let lines = cat_json(bare(), r#"{"a":[],"b":{}}"#);

    assert_eq!(lines, Vec::<String>::new());
}

#[test]
fn root_scalar() {
    let lines = cat_json(bare(), "42");

    assert_eq!(lines, vec![": 42\n"]);
}

#[test]
fn nulls_are_left_out() {
    let lines = cat_json(bare().with_null(false), r#"{"a":null,"b":1}"#);

    assert_eq!(lines, vec![".b: 1\n"]);
}

#[test]
fn nulls_are_written() {
    let lines = cat_json(bare(), r#"{"a":null,"b":1}"#);

    assert_eq!(lines, vec![".a: null\n", ".b: 1\n"]);
}

#[test]
fn members_keep_the_order_of_the_document() {
    let lines = cat_json(bare(), r#"{"b":1,"a":{"z":true,"y":false}}"#);

    assert_eq!(lines, vec![".b: 1\n", ".a.z: true\n", ".a.y: false\n"]);
}

#[test]
fn numbers_keep_their_text() {
    let lines = cat_json(bare(), r#"[1, -2, 1.5, 1.0, 18446744073709551615]"#);

    assert_eq!(
        lines,
        vec!["[0]: 1\n", "[1]: -2\n", "[2]: 1.5\n", "[3]: 1.0\n", "[4]: 18446744073709551615\n"]
    );
}

#[test]
fn strings_are_quoted_and_not_escaped() {
    let lines = cat_json(bare(), r#"{"s":"a \"b\"\nc"}"#);

    assert_eq!(lines, vec![".s: \"a \"b\"\nc\"\n"]);
}

#[test]
fn strings_without_quotes() {
    let lines = cat_json(bare().with_quotes(false), r#"{"s":"text"}"#);

    assert_eq!(lines, vec![".s: text\n"]);
}

#[test]
fn numbering_counts_written_lines() {
    let opts = bare().with_numbers(true).with_null(false);
    let lines = cat_json(opts, r#"{"a":[1,null,{"b":2}],"c":3}"#);

    assert_eq!(lines, vec!["    1  .a[0]: 1\n", "    2  .a[2].b: 2\n", "    3  .c: 3\n"]);
}

#[test]
fn numbering_goes_on_over_inputs() {
    let opts = bare().with_numbers(true);
    let mut flatcat = FlatCat::new(FlatCatOpts::new(), Output::from_stdout(opts)).unwrap();

    for _ in 0..2 {
        let input = Input::from_read(b"[true]".to_vec()).with_format_hint(FormatHint::json());
        flatcat.cat(input).unwrap();
    }

    assert_eq!(lines_of(&flatcat), vec!["    1  [0]: true\n", "    2  [0]: true\n"]);
}

#[test]
fn numbers_wider_than_five_columns() {
    let mut writer = OutputWriter::from_writer(Vec::new(), bare().with_numbers(true));
    for _ in 0..100_000 {
        writer.plain("");
    }

    let lines = writer.written();
    assert_eq!(lines[8], "    9  \n");
    assert_eq!(lines[9], "   10  \n");
    assert_eq!(lines[9_998], " 9999  \n");
    assert_eq!(lines[9_999], "10000  \n");
    assert_eq!(lines[99_999], "100000  \n");
}

#[test]
fn reset_starts_numbering_anew() {
    let mut writer = OutputWriter::from_writer(Vec::new(), bare().with_numbers(true));
    writer.number(".a", "1");
    writer.number(".b", "2");
    writer.reset_value_counter();
    writer.number(".c", "3");

    assert_eq!(writer.written(), &vec!["    1  .a: 1\n", "    2  .b: 2\n", "    1  .c: 3\n"]);
}

#[test]
fn end_of_line_marks() {
    let lines = cat_json(bare().with_end_of_lines(true), r#"{"a":"x"}"#);

    assert_eq!(lines, vec![".a: \"x\"$\n"]);
}

#[test]
fn colours() {
    let lines = cat_json(OutputOpts::new().with_numbers(true), r#"[true, 1, "s", null]"#);

    assert_eq!(
        lines,
        vec![
            "\u{1b}[33m    1\u{1b}[0m  \u{1b}[32m[\u{1b}[0m0\u{1b}[32m]\u{1b}[0m: \u{1b}[31mtrue\u{1b}[0m\n",
            "\u{1b}[33m    2\u{1b}[0m  \u{1b}[32m[\u{1b}[0m1\u{1b}[32m]\u{1b}[0m: \u{1b}[34m1\u{1b}[0m\n",
            "\u{1b}[33m    3\u{1b}[0m  \u{1b}[32m[\u{1b}[0m2\u{1b}[32m]\u{1b}[0m: \u{1b}[33m\"s\"\u{1b}[0m\n",
            "\u{1b}[33m    4\u{1b}[0m  \u{1b}[32m[\u{1b}[0m3\u{1b}[32m]\u{1b}[0m: \u{1b}[3;37mnull\u{1b}[0m\n",
        ]
    );
}

#[test]
fn colours_are_the_renderer_s_own_matter() {
    let mut plain = OutputWriter::from_writer(Vec::new(), bare());
    let mut colourful = OutputWriter::from_writer(Vec::new(), OutputOpts::new());

    plain.bool(".a", true);
    colourful.bool(".a", true);
    plain.bool(".b", false);

    assert_eq!(plain.written(), &vec![".a: true\n", ".b: false\n"]);
    assert_eq!(colourful.written(), &vec![".a: \u{1b}[31mtrue\u{1b}[0m\n"]);
}

#[test]
fn array_segments() {
    let plain = OutputWriter::from_writer(Vec::new(), bare());
    let colourful = OutputWriter::from_writer(Vec::new(), OutputOpts::new());

    assert_eq!(plain.array(0), "[0]");
    assert_eq!(plain.array(1234567), "[1234567]");
    assert_eq!(colourful.array(10), "\u{1b}[32m[\u{1b}[0m10\u{1b}[32m]\u{1b}[0m");
}

#[test]
fn every_kind_of_leaf() {
    let mut writer = OutputWriter::from_writer(Vec::new(), bare());

    writer.null(".n");
    writer.bool(".b", false);
    writer.datetime(".d", "1979-05-27T07:32:00Z");
    writer.number(".x", "1e10");
    writer.string(".s", "text");
    writer.special(".p", "undefined");
    writer.plain("as it stands");

    assert_eq!(
        writer.written(),
        &vec![
            ".n: null\n",
            ".b: false\n",
            ".d: 1979-05-27T07:32:00Z\n",
            ".x: 1e10\n",
            ".s: \"text\"\n",
            ".p: undefined\n",
            "as it stands\n",
        ]
    );
}

#[test]
fn plain_lines_in_colour_are_unstyled() {
    let mut writer = OutputWriter::from_writer(Vec::new(), OutputOpts::new());

    writer.plain("as it stands");

    assert_eq!(writer.written(), &vec!["as it stands\n"]);
}

#[test]
fn writer_keeps_earlier_lines() {
    let output = Output::from_writer(vec!["before\n".to_string()], bare().with_numbers(true));
    let mut writer = OutputWriter::try_from(output).unwrap();

    writer.bool("", true);

    assert_eq!(writer.written(), &vec!["before\n", "    1  : true\n"]);
    assert_eq!(writer.opts(), bare().with_numbers(true));
}

#[test]
fn flatten_a_node() {
    let node = Node::Object(vec![
        ("a".to_string(), integer("1")),
        (
            "b".to_string(),
            Node::Array(vec![
                Node::Null,
                Node::Bool(true),
                Node::String("s".to_string()),
                Node::Datetime("1979-05-27".to_string()),
                Node::Array(vec![]),
                Node::Object(vec![]),
                Node::Array(vec![Node::Number(Number { text: "0.5".to_string(), float: true })]),
            ]),
        ),
    ]);
    let mut path = KeyPath::new();
    path.push("root");
    let mut writer = OutputWriter::from_writer(Vec::new(), bare());

    flatten(&node, &mut path, &mut writer);

    assert_eq!(path.path(), ".root");
    assert_eq!(
        writer.written(),
        &vec![
            ".root.a: 1\n",
            ".root.b[0]: null\n",
            ".root.b[1]: true\n",
            ".root.b[2]: \"s\"\n",
            ".root.b[3]: 1979-05-27\n",
            ".root.b[6][0]: 0.5\n",
        ]
    );
}

#[test]
fn json_catter() {
    let mut writer = OutputWriter::from_writer(Vec::new(), bare());
    let mut catter = JsonCatter::new(JsonCatterOpts::new(), &mut writer);

    catter.cat(&InputReader::new(b" {\"k\": [null]} ".to_vec())).unwrap();
    catter.json(integer("7")).unwrap();

    assert_eq!(writer.written(), &vec![".k[0]: null\n", ": 7\n"]);
}

#[test]
fn json_catter_refuses_what_is_no_json() {
    let mut writer = OutputWriter::from_writer(Vec::new(), bare());
    let mut catter = JsonCatter::new(JsonCatterOpts::default(), &mut writer);

    let r = catter.cat(&InputReader::new(b"{\"k\": ".to_vec()));

    assert!(matches!(r, Err(FlatCatError::JsonError { .. })));
    assert_eq!(writer.written(), &Vec::<String>::new());
}

#[test]
fn toml_catter() {
    let text = "title = \"x\"\nn = 1\nf = 1.5\nd = 1979-05-27T07:32:00Z\non = true\n\n[owner]\ntags = [\"a\", \"b\"]\n";
    let opts = FlatCatOpts::new();
    let mut writer = OutputWriter::from_writer(Vec::new(), bare());
    let mut catter = TomlCatter::new(&opts, &mut writer);

    catter.cat(&InputReader::new(text.as_bytes().to_vec())).unwrap();

    assert_eq!(
        writer.written(),
        &vec![
            ".title: \"x\"\n",
            ".n: 1\n",
            ".f: 1.5\n",
            ".d: 1979-05-27T07:32:00Z\n",
            ".on: true\n",
            ".owner.tags[0]: \"a\"\n",
            ".owner.tags[1]: \"b\"\n",
        ]
    );
}

#[test]
fn toml_catter_refuses_what_is_no_toml() {
    let opts = FlatCatOpts::new();
    let mut writer = OutputWriter::from_writer(Vec::new(), bare());
    let mut catter = TomlCatter::new(&opts, &mut writer);

    let r = catter.cat(&InputReader::new(b"a = ".to_vec()));

    assert!(matches!(r, Err(FlatCatError::TomlError { .. })));
    assert_eq!(writer.written(), &Vec::<String>::new());
}

#[test]
fn yaml_catter() {
    let text = "b: 1\na:\n  - x\n  - ~\n  - 2.5\n  - k: true\n";
    let mut writer = OutputWriter::from_writer(Vec::new(), bare());
    let mut catter = YamlCatter::new(YamlCatterOpts::new(), &mut writer);

    catter.cat(&InputReader::new(text.as_bytes().to_vec())).unwrap();

    assert_eq!(
        writer.written(),
        &vec![".b: 1\n", ".a[0]: \"x\"\n", ".a[1]: null\n", ".a[2]: 2.5\n", ".a[3].k: true\n"]
    );
}

#[test]
fn yaml_catter_refuses_what_is_no_yaml() {
    let mut writer = OutputWriter::from_writer(Vec::new(), bare());
    let mut catter = YamlCatter::new(YamlCatterOpts::default(), &mut writer);

    let r = catter.cat(&InputReader::new(b"a: [1, 2".to_vec()));

    assert!(matches!(r, Err(FlatCatError::YamlError { .. })));
    assert_eq!(writer.written(), &Vec::<String>::new());
}

#[test]
fn yaml_catter_refuses_keys_that_are_no_strings() {
    let mut writer = OutputWriter::from_writer(Vec::new(), bare());
    let mut catter = YamlCatter::new(YamlCatterOpts::new(), &mut writer);

    let r = catter.cat(&InputReader::new(b"a: 1\n2: b\n".to_vec()));

    assert!(matches!(
        r,
        Err(FlatCatError::ParserError { what, to, why })
            if what == "mapping key" && to == "String" && why == "not a string"
    ));
    assert_eq!(writer.written(), &Vec::<String>::new());
}

#[test]
fn plain_catter() {
    let opts = FlatCatOpts::new();
    let mut writer = OutputWriter::from_writer(Vec::new(), bare());
    let mut catter = PlainCatter::new(&opts, &mut writer);

    catter.cat(&InputReader::new(b"one\r\n\ntwo \xc3\xa4\nlast\r".to_vec())).unwrap();

    assert_eq!(writer.written(), &vec!["one\n", "\n", "two ä\n", "last\r\n"]);
}

#[test]
fn plain_catter_stops_at_what_is_no_text() {
    let opts = FlatCatOpts::new();
    let mut writer = OutputWriter::from_writer(Vec::new(), bare());
    let mut catter = PlainCatter::new(&opts, &mut writer);

    let r = catter.plain(b"one\ntwo\n\xff\nfour\n");

    assert!(matches!(r, Err(FlatCatError::IoError { .. })));
    assert_eq!(writer.written(), &vec!["one\n", "two\n"]);
}

#[test]
fn plain_catter_on_nothing() {
    let opts = FlatCatOpts::new();
    let mut writer = OutputWriter::from_writer(Vec::new(), bare());
    let mut catter = PlainCatter::new(&opts, &mut writer);

    catter.plain(b"").unwrap();
    catter.plain(b"\n").unwrap();

    assert_eq!(writer.written(), &vec!["\n"]);
}

#[test]
fn unknown_format_falls_back_to_plain() {
    let text = "first line\n  {\"not\": json\nlast";
    let mut flatcat = FlatCat::new(FlatCatOpts::new(), Output::from_stdout(bare())).unwrap();

    flatcat.cat(Input::from_path("notes.txt", text.as_bytes().to_vec())).unwrap();

    assert_eq!(lines_of(&flatcat), vec!["first line\n", "  {\"not\": json\n", "last\n"]);
}

#[test]
fn unknown_format_without_fallback() {
    let opts = FlatCatOpts::new().with_plain(false);
    let mut flatcat = FlatCat::new(opts, Output::from_stdout(bare())).unwrap();

    let r = flatcat.cat(Input::from_path("notes.txt", b"first line\n".to_vec()));

    assert!(matches!(r, Err(FlatCatError::UnknownFormatExtError { ext }) if ext == "txt"));
    assert_eq!(lines_of(&flatcat), Vec::<String>::new());
}

#[test]
fn stream_without_hint_and_without_fallback() {
    let opts = FlatCatOpts::default().with_plain(false);
    let mut flatcat = FlatCat::new(opts, Output::from_stdout(bare())).unwrap();

    let r = flatcat.cat(Input::from_read(b"{}".to_vec()));

    assert!(matches!(
        r,
        Err(FlatCatError::UnknownFormatError { msg }) if msg == "cannot determine format from stream"
    ));
}

#[test]
fn format_is_guessed_from_the_path() {
    let mut flatcat = FlatCat::new(FlatCatOpts::new(), Output::from_stdout(bare())).unwrap();

    flatcat.cat(Input::from_path("a.json", b"{\"j\": 1}".to_vec())).unwrap();
    flatcat.cat(Input::from_path("a.toml", b"t = 2".to_vec())).unwrap();
    flatcat.cat(Input::from_path("a.yml", b"y: 3".to_vec())).unwrap();

    assert_eq!(lines_of(&flatcat), vec![".j: 1\n", ".t: 2\n", ".y: 3\n"]);
}

#[test]
fn cat_with_a_told_format() {
    let mut flatcat = FlatCat::new(FlatCatOpts::new(), Output::from_stdout(bare())).unwrap();
    let reader = InputReader::new(b"[1, 2".to_vec());

    let r = flatcat.cat_format(Ok(Format::Toml), &reader);
    let reader = InputReader::new(b"[1]".to_vec());
    flatcat.cat_format(Ok(Format::Yaml), &reader).unwrap();
    flatcat.cat_format(Ok(Format::Toml), &reader).unwrap();

    assert!(matches!(r, Err(FlatCatError::TomlError { .. })));
    assert_eq!(lines_of(&flatcat), vec!["[0]: 1\n"]);
}

#[test]
fn lines_before_an_error_stay() {
    let mut flatcat = FlatCat::new(FlatCatOpts::new(), Output::from_stdout(bare())).unwrap();

    flatcat.cat(Input::from_path("a.json", b"[1]".to_vec())).unwrap();
    let r = flatcat.cat(Input::from_path("b.json", b"[1".to_vec()));

    assert!(matches!(r, Err(FlatCatError::JsonError { .. })));
    assert_eq!(lines_of(&flatcat), vec!["[0]: 1\n"]);
}

#[test]
fn reader_of_an_input() {
    let reader = InputReader::try_from(Input::from_path("a.json", b"[1]".to_vec())).unwrap();

    assert_eq!(reader.bytes(), b"[1]");
}

#[test]
fn default_options() {
    let opts = OutputOpts::default();

    assert!(opts.colorful && opts.null && opts.quotes);
    assert!(!opts.numbers && !opts.end_of_line);
    assert_eq!(OutputOpts::new(), opts);
    assert!(FlatCatOpts::default().cat_plain);
    assert_eq!(FlatCatOpts::new(), FlatCatOpts::default());
    assert!(!FlatCatOpts::new().with_plain(false).cat_plain);
}

#[test]
fn each_builder_sets_one_option() {
    let opts = OutputOpts::new();

    assert_eq!(opts.with_color(false), OutputOpts { colorful: false, ..opts });
    assert_eq!(opts.with_null(false), OutputOpts { null: false, ..opts });
    assert_eq!(opts.with_quotes(false), OutputOpts { quotes: false, ..opts });
    assert_eq!(opts.with_numbers(true), OutputOpts { numbers: true, ..opts });
    assert_eq!(opts.with_end_of_lines(true), OutputOpts { end_of_line: true, ..opts });
}

#[test]
fn floats_show_a_decimal_point() {
    let mut flatcat = FlatCat::new(FlatCatOpts::new(), Output::from_stdout(bare())).unwrap();

    flatcat.cat(Input::from_path("a.json", b"[1.0, 1, 1e30]".to_vec())).unwrap();
    flatcat.cat(Input::from_path("a.toml", b"f = 1.0\ni = 1\nn = -2.0\nz = -0.0".to_vec())).unwrap();
    flatcat.cat(Input::from_path("a.yaml", b"[1.0, 1, -3.0, .inf, 1.25]".to_vec())).unwrap();

    assert_eq!(
        lines_of(&flatcat),
        vec![
            "[0]: 1.0\n",
            "[1]: 1\n",
            "[2]: 1e+30\n",
            ".f: 1.0\n",
            ".i: 1\n",
            ".n: -2.0\n",
            ".z: -0.0\n",
            "[0]: 1.0\n",
            "[1]: 1\n",
            "[2]: -3.0\n",
            "[3]: .inf\n",
            "[4]: 1.25\n",
        ]
    );
}

#[test]
fn number_as_written() {
    let written = |text: &str, float: bool| Number { text: text.to_string(), float }.written();

    assert_eq!(written("1", true), "1.0");
    assert_eq!(written("-12", true), "-12.0");
    assert_eq!(written("1", false), "1");
    assert_eq!(written("1.5", true), "1.5");
    assert_eq!(written("1e10", true), "1e10");
    assert_eq!(written("nan", true), "nan");
    assert_eq!(written("-", true), "-");
    assert_eq!(written("", true), "");
    assert_eq!(written("1-2", true), "1-2");
    assert_eq!(written("١", true), "١");
}

#[test]
fn whole_numerals() {
    assert!(whole_numeral("0"));
    assert!(whole_numeral("-7"));
    assert!(whole_numeral("18446744073709551616"));
    assert!(!whole_numeral(""));
    assert!(!whole_numeral("-"));
    assert!(!whole_numeral("+1"));
    assert!(!whole_numeral("1.0"));
    assert!(!whole_numeral("1-"));
    assert!(!whole_numeral("١٢"));
}
