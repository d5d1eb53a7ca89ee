use ua_tts::abbr::{
    decline_adjective, deduce_declension_and_number, expand_abbr_contextual, expand_abbreviation, find_unit,
    get_context_noun, get_declension, get_unit_form, is_abbreviation, is_preposition, Declension, Gender,
};
use ua_tts::normalize::helpers::{decimal_to_ua, int_to_ua, num_to_ua};
use ua_tts::normalize::lexer::{split_punctuation, tokenize, try_parse_date, try_parse_number, try_parse_time};
use ua_tts::normalize::normalize_text;
use ua_tts::normalize::preprocessor::{preprocess_text, step0_fix_paragraphs};
use ua_tts::normalize::types::RawToken;
use ua_tts::server::{
    encoder_args, encoder_failure, format_label, generation_error, health_response, log_line, mime_type,
    prepare_request, sample_file_name, synthesiser_args, synthesiser_failure, synthesiser_input, worth_logging,
    AppConfig, TtsRequest,
};
use ua_tts::stress::{apply_stress, with_stress_units, StressDict};
use ua_tts::wordwise;

fn strip(s: &str) -> String {
    s.chars().filter(|c| *c != '\u{0301}').collect()
}

fn single_spaced(s: &str) -> bool {
    !s.starts_with(char::is_whitespace)
        && !s.ends_with(char::is_whitespace)
        && !s.contains("  ")
        && s.chars().all(|c| !c.is_whitespace() || c == ' ')
}

#[test]
fn paragraphs_are_joined_without_line_breaks() {
    let r = step0_fix_paragraphs("a\nb\r\n\nc");
    assert_eq!(r, "ab. c");
    assert!(!r.contains('\n') && !r.contains('\r'));
    assert_eq!(step0_fix_paragraphs("кінець!\n\n\nпочаток"), "кінець! початок");
}

#[test]
fn plain_text_is_kept_by_paragraph_joining() {
    assert_eq!(step0_fix_paragraphs("привіт світе"), "привіт світе");
    assert_eq!(step0_fix_paragraphs(""), "");
}

#[test]
fn range_and_subtraction_in_preprocessing() {
    assert_eq!(preprocess_text("0-3°"), "від 0 до 3°");
    assert_eq!(preprocess_text("4-3"), "4 мінус 3");
    assert_eq!(preprocess_text("5-10 кг"), "від 5 до 10 кг");
    assert_eq!(preprocess_text("без цифр - тут"), "без цифр - тут");
}

#[test]
fn normalized_text_is_single_spaced() {
    let d = StressDict::new();
    let r = normalize_text("  привіт \t\n  світе  ", &d);
    assert_eq!(r, "привіт світе");
    assert!(single_spaced(&r));
    let w = wordwise::normalize_text("  Привіт   світе  ", &d);
    assert_eq!(w, "привіт світе");
    assert!(single_spaced(&w));
    assert_eq!(normalize_text("", &d), "");
}

#[test]
fn times_are_rewritten() {
    assert_eq!(wordwise::replace_times("о 12:30"), "о 12 тридцять");
    assert_eq!(wordwise::replace_times("08:05"), "08 нуль п'ять");
    assert_eq!(wordwise::replace_times("12:00"), "12");
    assert_eq!(wordwise::replace_times("12:30:15"), "12 тридцять п'ятнадцять");
    assert_eq!(wordwise::replace_times("без часу"), "без часу");
    assert_eq!(wordwise::replace_times("112:30"), "112:30");
}

#[test]
fn dates_are_rewritten() {
    assert_eq!(wordwise::replace_dates("сьогодні 28.06"), "сьогодні 28-е червня");
    assert_eq!(wordwise::replace_dates("до 28.06.2026"), "до 28-го червня 2026-го року");
    assert_eq!(wordwise::replace_dates("на 1.05"), "на 1-му травня");
    assert_eq!(wordwise::replace_dates("32.01"), "32.01");
    assert_eq!(wordwise::replace_dates("без дати"), "без дати");
}

#[test]
fn wordwise_preprocessing_combines_the_steps() {
    assert_eq!(wordwise::preprocess_text("до 28.06"), "до 28-го червня");
    assert_eq!(wordwise::preprocess_text("4-3"), "4 мінус 3");
}

#[test]
fn numbers_split_from_units() {
    assert_eq!(wordwise::split_number_unit("220V"), Some(("220".to_string(), "V".to_string())));
    assert_eq!(wordwise::split_number_unit("36.6°C"), Some(("36.6".to_string(), "°C".to_string())));
    assert_eq!(wordwise::split_number_unit("5-й"), None);
    assert_eq!(wordwise::split_number_unit("1.2.3кг"), None);
    assert_eq!(wordwise::split_number_unit("1,5кг"), None);
    assert_eq!(wordwise::split_number_unit("220"), None);
    assert_eq!(wordwise::split_number_unit("кг"), None);
}

#[test]
fn number_words_are_recognised() {
    assert!(wordwise::is_number_word("Два"));
    assert!(wordwise::is_number_word("мільйонів"));
    assert!(!wordwise::is_number_word("кілограм"));
}

#[test]
fn punctuation_is_split_and_reassembles() {
    let (p, c, s) = split_punctuation("«привіт!»");
    assert_eq!((p.as_str(), c.as_str(), s.as_str()), ("«", "привіт", "!»"));
    assert_eq!(format!("{}{}{}", p, c, s), "«привіт!»");
    let (p, c, s) = split_punctuation("-5,");
    assert_eq!((p.as_str(), c.as_str(), s.as_str()), ("", "-5", ","));
    let (p, c, s) = split_punctuation("...");
    assert_eq!((p.as_str(), c.as_str(), s.as_str()), ("...", "", ""));
}

#[test]
fn longest_unit_is_found() {
    assert_eq!(find_unit("kwh"), Some((3, "кіловат-годин")));
    assert_eq!(find_unit("KW"), Some((2, "кіловат")));
    assert_eq!(find_unit("mwhx"), Some((3, "міліват-годин")));
    assert_eq!(find_unit("кг."), Some((2, "кілограм")));
    assert_eq!(find_unit("яблуко"), None);
}

#[test]
fn custom_dictionary_entries_win() {
    let d = StressDict::load(Some("мама\u{0301}\n"), Some("мама=ма\u{0301}ма\n"));
    assert_eq!(apply_stress("Мама", &d), "ма\u{0301}ма");
    let only_main = StressDict::load(Some("мама\u{0301}\n"), None);
    assert_eq!(apply_stress("мама", &only_main), "мама\u{0301}");
}

#[test]
fn main_dictionary_words_are_filed_unstressed() {
    let d = StressDict::load(Some("Украї\u{0301}на\nбез\n\n"), None);
    assert_eq!(apply_stress("УКРАЇНА", &d), "украї\u{0301}на");
    assert_eq!(apply_stress("без", &d), "без");
    assert_eq!(d.get(&['б', 'е', 'з']), None);
}

#[test]
fn custom_dictionary_skips_comments_and_empty_keys() {
    let d = StressDict::load(None, Some("# коментар\n=во\u{0301}да\nво\u{0301}да\n"));
    assert_eq!(apply_stress("вода", &d), "во\u{0301}да");
    assert_eq!(apply_stress("коментар", &d), "коментар");
}

#[test]
fn words_outside_the_dictionary_are_lower_cased() {
    let d = StressDict::new();
    assert_eq!(apply_stress("ПРИВІТ", &d), "привіт");
}

#[test]
fn unit_names_get_their_stress() {
    assert_eq!(with_stress_units("вольт"), "во\u{0301}льт");
    assert_eq!(with_stress_units("градусів цельсія"), "градусів це\u{0301}льсія");
    assert_eq!(with_stress_units("метр"), "метр");
}

#[test]
fn singular_after_numbers_ending_in_one() {
    assert_eq!(deduce_declension_and_number(Some("21"), None), (Declension::Nominative, false));
    assert_eq!(deduce_declension_and_number(Some("11"), None), (Declension::Genitive, true));
    assert_eq!(deduce_declension_and_number(Some("3"), None), (Declension::Nominative, true));
    assert_eq!(deduce_declension_and_number(Some("5"), None), (Declension::Genitive, true));
    assert_eq!(deduce_declension_and_number(Some("1"), Some("з")), (Declension::Genitive, false));
    assert_eq!(deduce_declension_and_number(Some("два"), None), (Declension::Genitive, true));
    assert_eq!(deduce_declension_and_number(Some("від"), None), (Declension::Genitive, false));
    assert_eq!(deduce_declension_and_number(None, None), (Declension::Nominative, false));
}

#[test]
fn prepositions_govern_cases() {
    assert!(is_preposition("Від"));
    assert!(!is_preposition("кіт"));
    assert_eq!(get_declension(Some("на")), Declension::Locative);
    assert_eq!(get_declension(Some("До")), Declension::Genitive);
    assert_eq!(get_declension(Some("через")), Declension::Accusative);
    assert_eq!(get_declension(Some("між")), Declension::Instrumental);
    assert_eq!(get_declension(Some("завдяки")), Declension::Dative);
    assert_eq!(get_declension(None), Declension::Nominative);
}

#[test]
fn abbreviations_are_recognised_and_spelled() {
    assert!(is_abbreviation("СБУ"));
    assert!(!is_abbreviation("Сбу"));
    assert!(!is_abbreviation("А"));
    assert!(!is_abbreviation("АБВГДЕ"));
    assert_eq!(expand_abbreviation("ЖК"), "же ка");
}

#[test]
fn abbreviations_expand_in_context() {
    assert_eq!(strip(&expand_abbr_contextual("СБУ", Some("від"), None)), "служби безпеки України");
    assert_eq!(strip(&expand_abbr_contextual("СБУ", Some("2"), None)), "служби безпеки України");
    assert_eq!(strip(&expand_abbr_contextual("СБУ", None, None)), "служба безпеки України");
    assert_eq!(get_context_noun("СБУ"), Some("гривень"));
    assert_eq!(get_context_noun("кг"), Some("поверхів"));
    assert_eq!(get_context_noun("кіт"), None);
}

#[test]
fn adjectives_decline() {
    assert_eq!(decline_adjective("державна", Declension::Genitive, false, Gender::Feminine), "державної");
    assert_eq!(decline_adjective("синій", Declension::Dative, false, Gender::Masculine), "синьому");
    assert_eq!(decline_adjective("нові", Declension::Instrumental, true, Gender::Masculine), "новими");
}

#[test]
fn units_agree_with_numbers() {
    assert_eq!(get_unit_form("сорок", "градус", None), "градусів");
    assert_eq!(get_unit_form("сорок один", "градус", None), "градус");
    assert_eq!(get_unit_form("два", "кілограм", None), "кілограми");
    assert_eq!(get_unit_form("п'яти", "кілограм", Some("з")), "кілограмів");
    assert_eq!(get_unit_form("десятих", "літр", None), "літра");
}

#[test]
fn numbers_in_words() {
    assert_eq!(int_to_ua("25"), "двадцять п'ять");
    assert_eq!(num_to_ua("-5", false), "мінус п'ять");
    assert_eq!(num_to_ua("2,5", false), "дві цілих п'ять десятих");
    assert_eq!(num_to_ua("абв", false), "абв");
}

#[test]
fn decimals_in_words() {
    assert_eq!(decimal_to_ua("36", "6", true), "тридцять шість і шість");
    assert_eq!(decimal_to_ua("1", "1", false), "одна ціла одна десята");
    assert_eq!(decimal_to_ua("2", "5", false), "дві цілих п'ять десятих");
    assert_eq!(decimal_to_ua("0", "05", false), "нуль цілих п'ять сотих");
    assert_eq!(decimal_to_ua("", "", false), "нуль цілих нуль сотих");
}

#[test]
fn lexer_reads_times_dates_and_numbers() {
    assert!(matches!(try_parse_time("12:30"), Some(RawToken::Time { .. })));
    assert!(try_parse_time("1230").is_none());
    assert!(matches!(try_parse_date("28.06.2026"), Some(RawToken::Date { .. })));
    assert!(try_parse_date("28-06").is_none());
    match try_parse_number("-5.5кг") {
        Some(RawToken::Number { is_negative, int_part, dec_part, suffix, .. }) => {
            assert!(is_negative);
            assert_eq!(int_part, "5");
            assert_eq!(dec_part, Some("5".to_string()));
            assert_eq!(suffix, Some("кг".to_string()));
        },
        _ => panic!("not a number"),
    }
    assert!(try_parse_number("кг").is_none());
}

#[test]
fn empty_requests_are_refused() {
    let d = StressDict::new();
    let e = prepare_request(&TtsRequest { text: "  \n ".to_string() }, &d).unwrap_err();
    assert!(!e.success);
    assert_eq!(e.error, "Порожній текст");
    let ok = prepare_request(&TtsRequest { text: "  1 СБУ ".to_string() }, &d).unwrap();
    assert_eq!(strip(&ok), "одна служба безпеки україни");
}

#[test]
fn service_answers_and_messages() {
    let config = AppConfig {
        output_dir: "./output".to_string(),
        port: 9000,
        host: "0.0.0.0".to_string(),
        speaker_id: 2,
        model_dir: "./models".to_string(),
    };
    let h = health_response(&config, "0.1.0");
    assert_eq!((h.status.as_str(), h.version.as_str(), h.output_dir.as_str(), h.speaker_id), ("ok", "0.1.0", "./output", 2));
    assert_eq!(mime_type(true), "audio/mpeg");
    assert_eq!(mime_type(false), "audio/wav");
    assert_eq!(format_label(true), "MP3");
    assert_eq!(format_label(false), "WAV");
    let g = generation_error("boom");
    assert!(!g.success);
    assert_eq!(g.error, "Помилка генерації: boom");
    assert_eq!(synthesiser_input("текст"), "текст\n");
    assert_eq!(synthesiser_input("текст\n"), "текст\n");
    assert_eq!(
        synthesiser_args("m.onnx", "m.json", -2, true),
        vec!["--model", "m.onnx", "--config", "m.json", "--output-raw", "--speaker", "-2"]
    );
    assert_eq!(synthesiser_args("m.onnx", "m.json", 2, false), vec!["--model", "m.onnx", "--config", "m.json", "--speaker", "2"]);
    assert_eq!(encoder_args().len(), 20);
    assert_eq!(encoder_args()[10], "libmp3lame");
    assert_eq!(synthesiser_failure(Some(1), " bad \n"), "piper завершився з кодом Some(1): bad");
    assert_eq!(synthesiser_failure(None, ""), "piper завершився з кодом None: ");
    assert_eq!(encoder_failure("\tno codec "), "ffmpeg помилка: no codec");
    assert!(worth_logging(" warn "));
    assert!(!worth_logging(" \n "));
    assert_eq!(log_line(" помилка \n", " текст "), "помилка | текст\n");
    assert_eq!(sample_file_name("piper_ukrainian_tts", 2), "piper_ukrainian_tts_speaker_2.wav");
}

#[test]
fn dictionary_stress_reaches_the_output() {
    let d = StressDict::load(Some("во\u{0301}да\n"), None);
    assert_eq!(normalize_text("Вода, вода!", &d), "во\u{0301}да, во\u{0301}да!");
    assert_eq!(wordwise::normalize_text("Вода, вода!", &d), "во\u{0301}да, во\u{0301}да!");
}

#[test]
fn wordwise_reads_numbers_with_units() {
    let d = StressDict::new();
    assert_eq!(strip(&wordwise::normalize_text("220V", &d)), "двісті двадцять вольт");
    assert_eq!(strip(&wordwise::normalize_text("о 12:30", &d)), "о дванадцятій тридцять");
}

#[test]
fn thousands_mark_multiplies() {
    let d = StressDict::new();
    assert!(strip(&normalize_text("3к", &d)).contains("три тисячі"));
    assert!(strip(&normalize_text("2 К кг", &d)).contains("дві тисячі кілограмів"));
    assert!(strip(&normalize_text("1.2345к", &d)).contains("десятитисячних"));
    assert_eq!(normalize_text("к", &d), "к");
}

#[test]
fn test_log_format() {
    assert_eq!(log_line("тест помилки", "тестовий текст"), "тест помилки | тестовий текст\n");
}

fn raw_text(t: &RawToken) -> String {
    match t {
        RawToken::Word(w) => w.clone(),
        RawToken::Number { raw, .. } => raw.clone(),
        RawToken::Time { hours, minutes, seconds } => match seconds {
            Some(s) => format!("{}:{}:{}", hours, minutes, s),
            None => format!("{}:{}", hours, minutes),
        },
        RawToken::Date { day, month, year } => match year {
            Some(y) => format!("{}.{}.{}", day, month, y),
            None => format!("{}.{}", day, month),
        },
        RawToken::Punctuation(c) => c.to_string(),
        RawToken::Whitespace(w) => w.clone(),
    }
}

#[test]
fn tokens_give_back_the_text() {
    let text = "«О 12:30:15,  28.06.2026 — -5.5кг» і 220V!\n";
    let tokens = tokenize(text);
    let back: String = tokens.iter().map(raw_text).collect();
    assert_eq!(back, text);
    assert!(matches!(tokens[0], RawToken::Punctuation('«')));
    assert!(matches!(tokens[1], RawToken::Word(ref w) if w == "О"));
}

#[test]
fn degrees_celsius_are_spoken_with_stress() {
    let d = StressDict::new();
    let r = normalize_text("40°C", &d);
    assert!(r.contains("градусів це\u{0301}льсія"));
    assert!(r.starts_with("сорок"));
}

#[test]
fn soft_feminine_adjectives_decline() {
    assert_eq!(
        decline_adjective("всесві\u{0301}тня", Declension::Genitive, false, Gender::Feminine),
        "всесві\u{0301}тньої"
    );
    assert_eq!(
        decline_adjective("всесві\u{0301}тня", Declension::Instrumental, false, Gender::Feminine),
        "всесві\u{0301}тньою"
    );
    println!("{}", expand_abbr_contextual("ВООЗ", Some("від"), None));
    assert!(strip(&expand_abbr_contextual("ВООЗ", Some("від"), None)).to_lowercase().contains("всесвітньої"));
}

#[test]
fn numbers_read_as_float_literals() {
    assert_eq!(int_to_ua("5abc"), "5abc");
    assert_eq!(int_to_ua("1E5"), int_to_ua("100000"));
    assert_eq!(int_to_ua("+5"), "п'ять");
    assert_eq!(int_to_ua("5."), "п'ять");
    assert_eq!(int_to_ua("2.50e1"), "двадцять п'ять");
    assert_eq!(int_to_ua("0e9999"), int_to_ua("0"));
    assert_eq!(int_to_ua("1.5"), "1.5");
    assert_eq!(num_to_ua("1e3", false), int_to_ua("1000"));
    assert_eq!(int_to_ua("1e-100"), "1e-100");
    let long = "1".repeat(64);
    assert_eq!(int_to_ua(&long), long);
    assert_eq!(num_to_ua(&long, false), long);
    let d = StressDict::new();
    let ordinal = format!("{}-го", "9".repeat(67));
    assert!(!normalize_text(&ordinal, &d).is_empty());
    assert!(!wordwise::normalize_text(&ordinal, &d).is_empty());
}

#[test]
fn unit_stress_is_idempotent_and_only_adds_marks() {
    for w in ["кіловат-годин", "міліампер і ом", "градусів цельсія", "вольт", "паскаль"] {
        let once = with_stress_units(w);
        assert_eq!(with_stress_units(&once), once);
        assert_eq!(strip(&once), strip(w));
    }
}
