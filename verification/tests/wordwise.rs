use ua_tts::stress::StressDict;
use ua_tts::wordwise::normalize_text;

fn has_text(result: &str, expected: &str) -> bool {
    let stripped: String = result.chars().filter(|c| *c != '\u{0301}').collect();
    stripped.contains(expected)
}

fn norm(text: &str) -> String {
    normalize_text(text, &StressDict::new())
}

#[test]
fn normalize_test_abbreviations() {
    let r = norm("заступник керівника бучанського РТЦК андрій євтушенко");
    assert!(has_text(&r, "районного територіального центру комплектування"));
}

#[test]
fn normalize_test_decimals() {
    let r = norm("36.6");
    assert!(has_text(&r, "цілих"));
}

#[test]
fn normalize_test_electric_units() {
    let r = norm("220V");
    assert!(has_text(&r, "двісті"));
    assert!(has_text(&r, "вольт"));
}

#[test]
fn normalize_test_ha_states() {
    assert!(has_text(&norm("on"), "увімкнено"));
    assert!(has_text(&norm("off"), "вимкнено"));
}

#[test]
fn normalize_test_range_with_unit() {
    let r = norm("Вночі буде 0-3°");
    assert!(has_text(&r, "від"));
    assert!(has_text(&r, "до"));
}

#[test]
fn normalize_test_subtraction_without_unit() {
    let r = norm("4-3");
    println!("test_subtraction_without_unit RESULT: {:?}", r);
    assert!(has_text(&r, "мінус"));
}

#[test]
fn normalize_test_abbreviation_agreement_tts() {
    let r1 = norm("1 СБУ");
    println!("test_abbreviation_agreement_tts r1: {:?}", r1);
    assert!(has_text(&r1, "одна служба безпеки україни"));

    let r2 = norm("2 СБУ");
    println!("test_abbreviation_agreement_tts r2: {:?}", r2);
    assert!(has_text(&r2, "дві служби безпеки україни"));

    let r3 = norm("1 ТЦК");
    println!("test_abbreviation_agreement_tts r3: {:?}", r3);
    assert!(has_text(&r3, "один територіальний центр комплектування"));

    let r4 = norm("1 МВС");
    println!("test_abbreviation_agreement_tts r4: {:?}", r4);
    assert!(has_text(&r4, "одне міністерство внутрішніх справ"));
}

#[test]
fn normalize_test_declension_of_units_contextual() {
    // "з 5 кг" -> "з п'яти кілограмів"
    let r1 = norm("з 5 кг");
    println!("test_declension_of_units_contextual r1: {:?}", r1);
    assert!(has_text(&r1, "п'яти"));
    assert!(has_text(&r1, "кілограмів"));

    // "з 1 кг" -> "з одного кілограма"
    let r2 = norm("з 1 кг");
    println!("test_declension_of_units_contextual r2: {:?}", r2);
    assert!(has_text(&r2, "одного"));
    assert!(has_text(&r2, "грама"));

    // "при 1 градусі" -> "при одному градусі"
    let r3 = norm("при 1°");
    println!("test_declension_of_units_contextual r3: {:?}", r3);
    assert!(has_text(&r3, "одному"));
    assert!(has_text(&r3, "градусі"));

    // "температура котла 40°" -> "сорок градусів"
    let r4 = norm("температура котла 40°");
    println!("test_declension_of_units_contextual r4: {:?}", r4);
    assert!(has_text(&r4, "сорок градусів"));

    // "температура котла 41°" -> "сорок один градус"
    let r5 = norm("температура котла 41°");
    println!("test_declension_of_units_contextual r5: {:?}", r5);
    assert!(has_text(&r5, "сорок один градус"));

    // "ми витратили 2 з 5 кг" -> "два з п'яти кілограмів"
    let r6 = norm("ми витратили 2 з 5 кг");
    println!("test_declension_of_units_contextual r6: {:?}", r6);
    assert!(has_text(&r6, "два з п'яти кілограмів"));
}

#[test]
fn normalize_test_new_abbreviations_contextual() {
    // Тест для нових доданих абревіатур
    let r1 = norm("передано для ЗСУ");
    println!("test_new_abbreviations_contextual r1: {:?}", r1);
    assert!(has_text(&r1, "передано для збройних сил україни"));

    let r2 = norm("повідомлення від ДСНС");
    println!("test_new_abbreviations_contextual r2: {:?}", r2);
    assert!(has_text(&r2, "повідомлення від державної служби з надзвичайних ситуацій"));

    let r3 = norm("рішення ВРУ");
    println!("test_new_abbreviations_contextual r3: {:?}", r3);
    assert!(has_text(&r3, "рішення верховної ради україни"));

    let r4 = norm("заява від НАБУ");
    println!("test_new_abbreviations_contextual r4: {:?}", r4);
    assert!(has_text(&r4, "заява від національного антикорупційного бюро україни"));

    let r5 = norm("3 БПЛА");
    println!("test_new_abbreviations_contextual r5: {:?}", r5);
    assert!(has_text(&r5, "три безпілотні літальні апарати"));

    let r6 = norm("заява від ФОП");
    println!("test_new_abbreviations_contextual r6: {:?}", r6);
    assert!(has_text(&r6, "заява від фізичної особи підприємця"));

    let r7 = norm("допомога від ОП");
    println!("test_new_abbreviations_contextual r7: {:?}", r7);
    assert!(has_text(&r7, "допомога від офісу президента"));

    let r8 = norm("рішення КМУ");
    println!("test_new_abbreviations_contextual r8: {:?}", r8);
    assert!(has_text(&r8, "рішення кабінету міністрів україни"));

    let r9 = norm("повідомлення від ОВА");
    println!("test_new_abbreviations_contextual r9: {:?}", r9);
    assert!(has_text(&r9, "повідомлення від обласної військової адміністрації"));

    let r10 = norm("звіт від НПУ");
    println!("test_new_abbreviations_contextual r10: {:?}", r10);
    assert!(has_text(&r10, "звіт від національної поліції україни"));

    let r11 = norm("для НГУ");
    println!("test_new_abbreviations_contextual r11: {:?}", r11);
    assert!(has_text(&r11, "для національної гвардії україни"));

    let r12 = norm("рішення ВВК");
    println!("test_new_abbreviations_contextual r12: {:?}", r12);
    assert!(has_text(&r12, "рішення військово-лікарської комісії"));

    let r13 = norm("повідомлення від МЗС");
    println!("test_new_abbreviations_contextual r13: {:?}", r13);
    assert!(has_text(&r13, "повідомлення від міністерства закордонних справ"));

    let r14 = norm("заява від НАТО");
    println!("test_new_abbreviations_contextual r14: {:?}", r14);
    assert!(has_text(&r14, "заява від організації північноатлантичного договору"));

    let r15 = norm("сплата ПДВ");
    println!("test_new_abbreviations_contextual r15: {:?}", r15);
    assert!(has_text(&r15, "сплата податку на додану вартість"));

    let r16 = norm("оплата ЄСВ");
    println!("test_new_abbreviations_contextual r16: {:?}", r16);
    assert!(has_text(&r16, "оплата єдиного соціального внеску"));

    let r17 = norm("комітет МКЧХ");
    println!("test_new_abbreviations_contextual r17: {:?}", r17);
    assert!(has_text(&r17, "комітет міжнародного комітету червоного хреста"));

    let r18 = norm("направлення на МРТ");
    println!("test_new_abbreviations_contextual r18: {:?}", r18);
    assert!(has_text(&r18, "направлення на магнітно-резонансну томографію"));

    let r19 = norm("результати ЗНО");
    println!("test_new_abbreviations_contextual r19: {:?}", r19);
    assert!(has_text(&r19, "результати зовнішнього незалежного оцінювання"));

    let r20 = norm("надіслати СМС");
    println!("test_new_abbreviations_contextual r20: {:?}", r20);
    assert!(has_text(&r20, "надіслати коротке текстове повідомлення"));
}

#[test]
fn normalize_test_smart_home_scenarios() {
    // Temperature simplified decimals
    let temp1 = norm("температура 36.6°C");
    println!("test_smart_home_scenarios temp1: {:?}", temp1);
    assert!(has_text(&temp1, "тридцять шість і шість градусів цельсія"));

    let temp2 = norm("температура 9.6°C");
    println!("test_smart_home_scenarios temp2: {:?}", temp2);
    assert!(has_text(&temp2, "дев'ять цілих шість десятих градуса цельсія"));

    let temp3 = norm("температура котла 10.5°");
    println!("test_smart_home_scenarios temp3: {:?}", temp3);
    assert!(has_text(&temp3, "десять і п'ять градусів"));

    // Time format
    let time1 = norm("о 12:30");
    println!("test_smart_home_scenarios time1: {:?}", time1);
    assert!(has_text(&time1, "о дванадцятій тридцять"));

    let time2 = norm("зараз 08:05");
    println!("test_smart_home_scenarios time2: {:?}", time2);
    assert!(has_text(&time2, "зараз вісім нуль п'ять"));

    let time3 = norm("час 12:30:15");
    println!("test_smart_home_scenarios time3: {:?}", time3);
    assert!(has_text(&time3, "час дванадцять тридцять п'ятнадцять"));

    // Decimal quantity agreement (Genitive Singular)
    let dec1 = norm("1.1 кг");
    println!("test_smart_home_scenarios dec1: {:?}", dec1);
    assert!(has_text(&dec1, "одна ціла одна десята кілограма"));

    let dec2 = norm("2.5 л");
    println!("test_smart_home_scenarios dec2: {:?}", dec2);
    assert!(has_text(&dec2, "дві цілих п'ять десятих літра"));

    // HA new states
    let state1 = norm("unavailable");
    println!("test_smart_home_scenarios state1: {:?}", state1);
    assert!(has_text(&state1, "недоступно"));

    let state2 = norm("offline");
    println!("test_smart_home_scenarios state2: {:?}", state2);
    assert!(has_text(&state2, "поза мережею"));

    let state3 = norm("playing");
    println!("test_smart_home_scenarios state3: {:?}", state3);
    assert!(has_text(&state3, "відтворюється"));

    let state4 = norm("home");
    println!("test_smart_home_scenarios state4: {:?}", state4);
    assert!(has_text(&state4, "вдома"));

    // Date formats
    let date1 = norm("сьогодні 28.06");
    println!("test_smart_home_scenarios date1: {:?}", date1);
    assert!(has_text(&date1, "сьогодні двадцять восьме червня"));

    let date2 = norm("до 28.06");
    println!("test_smart_home_scenarios date2: {:?}", date2);
    assert!(has_text(&date2, "до двадцять восьмого червня"));

    let date3 = norm("дата 28.06.2026");
    println!("test_smart_home_scenarios date3: {:?}", date3);
    assert!(has_text(&date3, "дата двадцять восьме червня дві тисячі двадцять шостого року"));
}
