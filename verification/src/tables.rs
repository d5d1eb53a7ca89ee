//! The fixed vocabulary of the normaliser: known abbreviations with their
//! expansions, and units of measurement and device states with their names.

use vstd::prelude::*;
use crate::abbr::{AbbrModel, AbbrSpec, Gender, WordModel, WordRole, WordSpec};
use crate::text::eq_str;

verus! {

/// A word of an expansion that is never declined.
pub open spec fn word_static(text: Seq<char>) -> WordModel {
    WordModel { text, role: WordRole::Static, gender: Gender::Masculine, is_always_plural: false }
}

/// An adjective of an expansion.
pub open spec fn word_adj(text: Seq<char>) -> WordModel {
    WordModel { text, role: WordRole::Adj, gender: Gender::Masculine, is_always_plural: false }
}

/// The main noun of an expansion.
pub open spec fn word_noun(text: Seq<char>, gender: Gender) -> WordModel {
    WordModel { text, role: WordRole::Noun, gender, is_always_plural: false }
}

/// The main noun of an expansion, existing in the plural only.
pub open spec fn word_noun_pl(text: Seq<char>, gender: Gender) -> WordModel {
    WordModel { text, role: WordRole::Noun, gender, is_always_plural: true }
}

/// Abbreviations, part 1 of 6.
pub open spec fn abbr_part0(key: Seq<char>) -> Option<AbbrModel> {
    if key == "сбу"@ {
        Some(AbbrModel {
            gender_class: "гривень"@,
            words: seq![
                word_noun("слу\u{0301}жба"@, Gender::Feminine),
                word_static("безпе\u{0301}ки"@),
                word_static("Украї\u{0301}ни"@),
            ],
        })
    } else if key == "дснс"@ {
        Some(AbbrModel {
            gender_class: "гривень"@,
            words: seq![
                word_adj("держа\u{0301}вна"@),
                word_noun("слу\u{0301}жба"@, Gender::Feminine),
                word_static("з"@),
                word_static("надзвича\u{0301}йних"@),
                word_static("ситуа\u{0301}цій"@),
            ],
        })
    } else if key == "дпсу"@ {
        Some(AbbrModel {
            gender_class: "гривень"@,
            words: seq![
                word_adj("держа\u{0301}вна"@),
                word_adj("прикордо\u{0301}нна"@),
                word_noun("слу\u{0301}жба"@, Gender::Feminine),
                word_static("Украї\u{0301}ни"@),
            ],
        })
    } else if key == "вру"@ {
        Some(AbbrModel {
            gender_class: "гривень"@,
            words: seq![
                word_adj("верхо\u{0301}вна"@),
                word_noun("ра\u{0301}да"@, Gender::Feminine),
                word_static("Украї\u{0301}ни"@),
            ],
        })
    } else if key == "рнбо"@ {
        Some(AbbrModel {
            gender_class: "гривень"@,
            words: seq![
                word_noun("ра\u{0301}да"@, Gender::Feminine),
                word_static("націона\u{0301}льної"@),
                word_static("безпе\u{0301}ки"@),
                word_static("і"@),
                word_static("оборо\u{0301}ни"@),
                word_static("Украї\u{0301}ни"@),
            ],
        })
    } else if key == "оон"@ {
        Some(AbbrModel {
            gender_class: "гривень"@,
            words: seq![
                word_noun("організа\u{0301}ція"@, Gender::Feminine),
                word_static("об'є\u{0301}днаних"@),
                word_static("на\u{0301}цій"@),
            ],
        })
    } else if key == "ппо"@ {
        Some(AbbrModel {
            gender_class: "гривень"@,
            words: seq![
                word_adj("протипові\u{0301}тряна"@),
                word_noun("оборо\u{0301}на"@, Gender::Feminine),
            ],
        })
    } else if key == "реб"@ {
        Some(AbbrModel {
            gender_class: "гривень"@,
            words: seq![
                word_adj("радіоелектро\u{0301}нна"@),
                word_noun("боротьба\u{0301}"@, Gender::Feminine),
            ],
        })
    } else if key == "гес"@ {
        Some(AbbrModel {
            gender_class: "гривень"@,
            words: seq![
                word_noun("гідроелектроста\u{0301}нція"@, Gender::Feminine),
            ],
        })
    } else if key == "аес"@ {
        Some(AbbrModel {
            gender_class: "гривень"@,
            words: seq![
                word_adj("а\u{0301}томна"@),
                word_noun("електроста\u{0301}нція"@, Gender::Feminine),
            ],
        })
    } else if key == "тес"@ {
        Some(AbbrModel {
            gender_class: "гривень"@,
            words: seq![
                word_adj("теплова\u{0301}"@),
                word_noun("електроста\u{0301}нція"@, Gender::Feminine),
            ],
        })
    } else if key == "тцк"@ {
        Some(AbbrModel {
            gender_class: "поверхів"@,
            words: seq![
                word_adj("територіа\u{0301}льний"@),
                word_noun("це\u{0301}нтр"@, Gender::Masculine),
                word_static("комплекту\u{0301}вання"@),
            ],
        })
    } else if key == "ртцк"@ {
        Some(AbbrModel {
            gender_class: "поверхів"@,
            words: seq![
                word_adj("райо\u{0301}нний"@),
                word_adj("територіа\u{0301}льний"@),
                word_noun("це\u{0301}нтр"@, Gender::Masculine),
                word_static("комплекту\u{0301}вання"@),
            ],
        })
    } else if key == "нбу"@ {
        Some(AbbrModel {
            gender_class: "поверхів"@,
            words: seq![
                word_adj("націона\u{0301}льний"@),
                word_noun("банк"@, Gender::Masculine),
                word_static("Украї\u{0301}ни"@),
            ],
        })
    } else if key == "єс"@ {
        Some(AbbrModel {
            gender_class: "поверхів"@,
            words: seq![
                word_adj("європейськи\u{0301}й"@),
                word_noun("сою\u{0301}з"@, Gender::Masculine),
            ],
        })
    } else if key == "цнап"@ {
        Some(AbbrModel {
            gender_class: "поверхів"@,
            words: seq![
                word_noun("це\u{0301}нтр"@, Gender::Masculine),
                word_static("нада\u{0301}ння"@),
                word_static("адміністрати\u{0301}вних"@),
                word_static("послу\u{0301}г"@),
            ],
        })
    } else if key == "кпп"@ {
        Some(AbbrModel {
            gender_class: "поверхів"@,
            words: seq![
                word_adj("контро\u{0301}льно-пропускни\u{0301}й"@),
                word_noun("пу\u{0301}нкт"@, Gender::Masculine),
            ],
        })
    } else if key == "бпла"@ {
        Some(AbbrModel {
            gender_class: "поверхів"@,
            words: seq![
                word_adj("безпіло\u{0301}тний"@),
                word_adj("літа\u{0301}льний"@),
                word_noun("апара\u{0301}т"@, Gender::Masculine),
            ],
        })
    } else if key == "зрк"@ {
        Some(AbbrModel {
            gender_class: "поверхів"@,
            words: seq![
                word_adj("зені\u{0301}тно-раке\u{0301}тний"@),
                word_noun("ко\u{0301}мплекс"@, Gender::Masculine),
            ],
        })
    } else if key == "мвс"@ {
        Some(AbbrModel {
            gender_class: "імен"@,
            words: seq![
                word_noun("міністе\u{0301}рство"@, Gender::Neuter),
                word_static("вну\u{0301}трішніх"@),
                word_static("справ"@),
            ],
        })
    } else {
        None
    }
}

/// Abbreviations, part 2 of 6.
pub open spec fn abbr_part1(key: Seq<char>) -> Option<AbbrModel> {
    if key == "гур"@ {
        Some(AbbrModel {
            gender_class: "імен"@,
            words: seq![
                word_adj("голо\u{0301}вне"@),
                word_noun("управлі\u{0301}ння"@, Gender::Neuter),
                word_static("ро\u{0301}звідки"@),
            ],
        })
    } else if key == "моз"@ {
        Some(AbbrModel {
            gender_class: "імен"@,
            words: seq![
                word_noun("міністе\u{0301}рство"@, Gender::Neuter),
                word_static("охоро\u{0301}ни"@),
                word_static("здоро\u{0301}в'я"@),
                word_static("Украї\u{0301}ни"@),
            ],
        })
    } else if key == "мон"@ {
        Some(AbbrModel {
            gender_class: "імен"@,
            words: seq![
                word_noun("міністе\u{0301}рство"@, Gender::Neuter),
                word_static("осві\u{0301}ти"@),
                word_static("і"@),
                word_static("нау\u{0301}ки"@),
                word_static("Украї\u{0301}ни"@),
            ],
        })
    } else if key == "набу"@ {
        Some(AbbrModel {
            gender_class: "імен"@,
            words: seq![
                word_adj("націона\u{0301}льне"@),
                word_adj("антикорупці\u{0301}йне"@),
                word_static("бюро\u{0301}"@),
                word_static("Украї\u{0301}ни"@),
            ],
        })
    } else if key == "дбр"@ {
        Some(AbbrModel {
            gender_class: "імен"@,
            words: seq![
                word_adj("держа\u{0301}вне"@),
                word_static("бюро\u{0301}"@),
                word_static("розслі\u{0301}дувань"@),
            ],
        })
    } else if key == "зсу"@ {
        Some(AbbrModel {
            gender_class: "гривень"@,
            words: seq![
                word_adj("збро\u{0301}йні"@),
                word_noun_pl("си\u{0301}ли"@, Gender::Feminine),
                word_static("Украї\u{0301}ни"@),
            ],
        })
    } else if key == "сша"@ {
        Some(AbbrModel {
            gender_class: "поверхів"@,
            words: seq![
                word_adj("сполу\u{0301}чені"@),
                word_noun_pl("шта\u{0301}ти"@, Gender::Masculine),
                word_static("аме\u{0301}рики"@),
            ],
        })
    } else if key == "змі"@ {
        Some(AbbrModel {
            gender_class: "поверхів"@,
            words: seq![
                word_noun_pl("за\u{0301}соби"@, Gender::Masculine),
                word_static("ма\u{0301}сової"@),
                word_static("інформа\u{0301}ції"@),
            ],
        })
    } else if key == "кму"@ {
        Some(AbbrModel {
            gender_class: "поверхів"@,
            words: seq![
                word_noun("Кабіне\u{0301}т"@, Gender::Masculine),
                word_static("Міні\u{0301}стрів"@),
                word_static("Украї\u{0301}ни"@),
            ],
        })
    } else if key == "оп"@ {
        Some(AbbrModel {
            gender_class: "поверхів"@,
            words: seq![
                word_noun("О\u{0301}фіс"@, Gender::Masculine),
                word_static("Президе\u{0301}нта"@),
            ],
        })
    } else if key == "ова"@ {
        Some(AbbrModel {
            gender_class: "гривень"@,
            words: seq![
                word_adj("обласна\u{0301}"@),
                word_adj("військо\u{0301}ва"@),
                word_noun("адміністра\u{0301}ція"@, Gender::Feminine),
            ],
        })
    } else if key == "рва"@ {
        Some(AbbrModel {
            gender_class: "гривень"@,
            words: seq![
                word_adj("районна\u{0301}"@),
                word_adj("військо\u{0301}ва"@),
                word_noun("адміністра\u{0301}ція"@, Gender::Feminine),
            ],
        })
    } else if key == "мва"@ {
        Some(AbbrModel {
            gender_class: "гривень"@,
            words: seq![
                word_adj("міська\u{0301}"@),
                word_adj("військо\u{0301}ва"@),
                word_noun("адміністра\u{0301}ція"@, Gender::Feminine),
            ],
        })
    } else if key == "кмда"@ {
        Some(AbbrModel {
            gender_class: "гривень"@,
            words: seq![
                word_adj("Ки\u{0301}ївська"@),
                word_adj("міська\u{0301}"@),
                word_adj("держа\u{0301}вна"@),
                word_noun("адміністра\u{0301}ція"@, Gender::Feminine),
            ],
        })
    } else if key == "кмва"@ {
        Some(AbbrModel {
            gender_class: "гривень"@,
            words: seq![
                word_adj("Ки\u{0301}ївська"@),
                word_adj("міська\u{0301}"@),
                word_adj("військо\u{0301}ва"@),
                word_noun("адміністра\u{0301}ція"@, Gender::Feminine),
            ],
        })
    } else if key == "гш"@ {
        Some(AbbrModel {
            gender_class: "поверхів"@,
            words: seq![
                word_adj("Генера\u{0301}льний"@),
                word_noun("штаб"@, Gender::Masculine),
            ],
        })
    } else if key == "нпу"@ {
        Some(AbbrModel {
            gender_class: "гривень"@,
            words: seq![
                word_adj("Націона\u{0301}льна"@),
                word_noun("полі\u{0301}ція"@, Gender::Feminine),
                word_static("Украї\u{0301}ни"@),
            ],
        })
    } else if key == "кп"@ {
        Some(AbbrModel {
            gender_class: "яблук"@,
            words: seq![
                word_adj("комуна\u{0301}льне"@),
                word_noun("підпри\u{0301}ємство"@, Gender::Neuter),
            ],
        })
    } else if key == "отг"@ {
        Some(AbbrModel {
            gender_class: "гривень"@,
            words: seq![
                word_adj("об'єдна\u{0301}на"@),
                word_adj("територіа\u{0301}льна"@),
                word_noun("грома\u{0301}да"@, Gender::Feminine),
            ],
        })
    } else if key == "осбб"@ {
        Some(AbbrModel {
            gender_class: "яблук"@,
            words: seq![
                word_noun("об'є\u{0301}днання"@, Gender::Neuter),
                word_static("співвла\u{0301}сників"@),
                word_static("багатокварти\u{0301}рного"@),
                word_static("буди\u{0301}нку"@),
            ],
        })
    } else {
        None
    }
}

/// Abbreviations, part 3 of 6.
pub open spec fn abbr_part2(key: Seq<char>) -> Option<AbbrModel> {
    if key == "фоп"@ {
        Some(AbbrModel {
            gender_class: "гривень"@,
            words: seq![
                word_adj("фізи\u{0301}чна"@),
                word_noun("осо\u{0301}ба"@, Gender::Feminine),
                word_noun("підприє\u{0301}мець"@, Gender::Masculine),
            ],
        })
    } else if key == "тов"@ {
        Some(AbbrModel {
            gender_class: "яблук"@,
            words: seq![
                word_noun("товари\u{0301}ство"@, Gender::Neuter),
                word_static("з"@),
                word_static("обме\u{0301}женою"@),
                word_static("відповіда\u{0301}льністю"@),
            ],
        })
    } else if key == "нек"@ {
        Some(AbbrModel {
            gender_class: "гривень"@,
            words: seq![
                word_adj("націона\u{0301}льна"@),
                word_adj("енергети\u{0301}чна"@),
                word_noun("компа\u{0301}нія"@, Gender::Feminine),
            ],
        })
    } else if key == "цвк"@ {
        Some(AbbrModel {
            gender_class: "гривень"@,
            words: seq![
                word_adj("Центра\u{0301}льна"@),
                word_adj("ви\u{0301}борча"@),
                word_noun("комі\u{0301}сія"@, Gender::Feminine),
            ],
        })
    } else if key == "впо"@ {
        Some(AbbrModel {
            gender_class: "гривень"@,
            words: seq![
                word_static("внутрі\u{0301}шньо"@),
                word_adj("перемі\u{0301}щена"@),
                word_noun("осо\u{0301}ба"@, Gender::Feminine),
            ],
        })
    } else if key == "зво"@ {
        Some(AbbrModel {
            gender_class: "поверхів"@,
            words: seq![
                word_noun("за\u{0301}клад"@, Gender::Masculine),
                word_static("ви\u{0301}щої"@),
                word_static("осві\u{0301}ти"@),
            ],
        })
    } else if key == "внз"@ {
        Some(AbbrModel {
            gender_class: "поверхів"@,
            words: seq![
                word_adj("ви\u{0301}щий"@),
                word_adj("навча\u{0301}льний"@),
                word_noun("за\u{0301}клад"@, Gender::Masculine),
            ],
        })
    } else if key == "нану"@ {
        Some(AbbrModel {
            gender_class: "гривень"@,
            words: seq![
                word_adj("Націона\u{0301}льна"@),
                word_noun("акаде\u{0301}мія"@, Gender::Feminine),
                word_static("нау\u{0301}к"@),
                word_static("Украї\u{0301}ни"@),
            ],
        })
    } else if key == "мвф"@ {
        Some(AbbrModel {
            gender_class: "поверхів"@,
            words: seq![
                word_adj("Міжнаро\u{0301}дний"@),
                word_adj("валю\u{0301}тний"@),
                word_noun("фонд"@, Gender::Masculine),
            ],
        })
    } else if key == "обсє"@ {
        Some(AbbrModel {
            gender_class: "гривень"@,
            words: seq![
                word_noun("організа\u{0301}ція"@, Gender::Feminine),
                word_static("з"@),
                word_static("безпе\u{0301}ки"@),
                word_static("і"@),
                word_static("співробі\u{0301}тництва"@),
                word_static("в"@),
                word_static("Євро\u{0301}пі"@),
            ],
        })
    } else if key == "вмс"@ {
        Some(AbbrModel {
            gender_class: "гривень"@,
            words: seq![
                word_adj("Військо\u{0301}во-морські\u{0301}"@),
                word_noun_pl("си\u{0301}ли"@, Gender::Feminine),
            ],
        })
    } else if key == "пс"@ {
        Some(AbbrModel {
            gender_class: "гривень"@,
            words: seq![
                word_adj("Пові\u{0301}тряні"@),
                word_noun_pl("си\u{0301}ли"@, Gender::Feminine),
            ],
        })
    } else if key == "ссо"@ {
        Some(AbbrModel {
            gender_class: "гривень"@,
            words: seq![
                word_noun_pl("си\u{0301}ли"@, Gender::Feminine),
                word_static("спеціа\u{0301}льних"@),
                word_static("опера\u{0301}цій"@),
            ],
        })
    } else if key == "тро"@ {
        Some(AbbrModel {
            gender_class: "гривень"@,
            words: seq![
                word_adj("територіа\u{0301}льна"@),
                word_noun("оборо\u{0301}на"@, Gender::Feminine),
            ],
        })
    } else if key == "птрк"@ {
        Some(AbbrModel {
            gender_class: "поверхів"@,
            words: seq![
                word_adj("протита\u{0301}нковий"@),
                word_adj("раке\u{0301}тний"@),
                word_noun("ко\u{0301}мплекс"@, Gender::Masculine),
            ],
        })
    } else if key == "пзрк"@ {
        Some(AbbrModel {
            gender_class: "поверхів"@,
            words: seq![
                word_adj("переносни\u{0301}й"@),
                word_adj("зені\u{0301}тно-раке\u{0301}тний"@),
                word_noun("ко\u{0301}мплекс"@, Gender::Masculine),
            ],
        })
    } else if key == "рсзв"@ {
        Some(AbbrModel {
            gender_class: "гривень"@,
            words: seq![
                word_adj("реакти\u{0301}вна"@),
                word_noun("систе\u{0301}ма"@, Gender::Feminine),
                word_static("за\u{0301}лпового"@),
                word_static("вогню\u{0301}"@),
            ],
        })
    } else if key == "бтр"@ {
        Some(AbbrModel {
            gender_class: "поверхів"@,
            words: seq![
                word_noun("бронетранспорте\u{0301}р"@, Gender::Masculine),
            ],
        })
    } else if key == "бмп"@ {
        Some(AbbrModel {
            gender_class: "гривень"@,
            words: seq![
                word_adj("бойова\u{0301}"@),
                word_noun("маши\u{0301}на"@, Gender::Feminine),
            ],
        })
    } else if key == "дшв"@ {
        Some(AbbrModel {
            gender_class: "яблук"@,
            words: seq![
                word_adj("деса\u{0301}нтно-штурмові\u{0301}"@),
                word_noun_pl("війська\u{0301}"@, Gender::Neuter),
            ],
        })
    } else {
        None
    }
}

/// Abbreviations, part 4 of 6.
pub open spec fn abbr_part3(key: Seq<char>) -> Option<AbbrModel> {
    if key == "чаес"@ {
        Some(AbbrModel {
            gender_class: "гривень"@,
            words: seq![
                word_adj("Чорно\u{0301}бильська"@),
                word_adj("а\u{0301}томна"@),
                word_noun("електроста\u{0301}нція"@, Gender::Feminine),
            ],
        })
    } else if key == "заес"@ {
        Some(AbbrModel {
            gender_class: "гривень"@,
            words: seq![
                word_adj("Запорі\u{0301}зька"@),
                word_adj("а\u{0301}томна"@),
                word_noun("електроста\u{0301}нція"@, Gender::Feminine),
            ],
        })
    } else if key == "хаес"@ {
        Some(AbbrModel {
            gender_class: "гривень"@,
            words: seq![
                word_adj("Хмельни\u{0301}цька"@),
                word_adj("а\u{0301}томна"@),
                word_noun("електроста\u{0301}нція"@, Gender::Feminine),
            ],
        })
    } else if key == "раес"@ {
        Some(AbbrModel {
            gender_class: "гривень"@,
            words: seq![
                word_adj("Рі\u{0301}вненська"@),
                word_adj("а\u{0301}томна"@),
                word_noun("електроста\u{0301}нція"@, Gender::Feminine),
            ],
        })
    } else if key == "уз"@ {
        Some(AbbrModel {
            gender_class: "гривень"@,
            words: seq![
                word_noun("Укрзалізни\u{0301}ця"@, Gender::Feminine),
            ],
        })
    } else if key == "пцу"@ {
        Some(AbbrModel {
            gender_class: "гривень"@,
            words: seq![
                word_adj("Правосла\u{0301}вна"@),
                word_noun("це\u{0301}рква"@, Gender::Feminine),
                word_static("Украї\u{0301}ни"@),
            ],
        })
    } else if key == "дтп"@ {
        Some(AbbrModel {
            gender_class: "гривень"@,
            words: seq![
                word_adj("доро\u{0301}жньо-тра\u{0301}нспортна"@),
                word_noun("приго\u{0301}да"@, Gender::Feminine),
            ],
        })
    } else if key == "грві"@ {
        Some(AbbrModel {
            gender_class: "гривень"@,
            words: seq![
                word_adj("го\u{0301}стра"@),
                word_adj("респірато\u{0301}рна"@),
                word_adj("ві\u{0301}русна"@),
                word_noun("інфе\u{0301}кція"@, Gender::Feminine),
            ],
        })
    } else if key == "іт"@ {
        Some(AbbrModel {
            gender_class: "гривень"@,
            words: seq![
                word_adj("інформаці\u{0301}йні"@),
                word_noun_pl("техноло\u{0301}гії"@, Gender::Feminine),
            ],
        })
    } else if key == "снід"@ {
        Some(AbbrModel {
            gender_class: "поверхів"@,
            words: seq![
                word_noun("синдро\u{0301}м"@, Gender::Masculine),
                word_static("набу\u{0301}того"@),
                word_static("імунодефіци\u{0301}ту"@),
            ],
        })
    } else if key == "віл"@ {
        Some(AbbrModel {
            gender_class: "поверхів"@,
            words: seq![
                word_noun("ві\u{0301}рус"@, Gender::Masculine),
                word_static("імунодефіци\u{0301}ту"@),
                word_static("люди\u{0301}ни"@),
            ],
        })
    } else if key == "нато"@ {
        Some(AbbrModel {
            gender_class: "гривень"@,
            words: seq![
                word_noun("організа\u{0301}ція"@, Gender::Feminine),
                word_static("Північноатланти\u{0301}чного"@),
                word_static("догово\u{0301}ру"@),
            ],
        })
    } else if key == "нгу"@ {
        Some(AbbrModel {
            gender_class: "гривень"@,
            words: seq![
                word_adj("Націона\u{0301}льна"@),
                word_noun("гва\u{0301}рдія"@, Gender::Feminine),
                word_static("Украї\u{0301}ни"@),
            ],
        })
    } else if key == "сау"@ {
        Some(AbbrModel {
            gender_class: "гривень"@,
            words: seq![
                word_adj("самохі\u{0301}дна"@),
                word_adj("артилері\u{0301}йська"@),
                word_noun("устано\u{0301}вка"@, Gender::Feminine),
            ],
        })
    } else if key == "ббм"@ {
        Some(AbbrModel {
            gender_class: "гривень"@,
            words: seq![
                word_adj("бойова\u{0301}"@),
                word_adj("броньо\u{0301}вана"@),
                word_noun("маши\u{0301}на"@, Gender::Feminine),
            ],
        })
    } else if key == "мзс"@ {
        Some(AbbrModel {
            gender_class: "імен"@,
            words: seq![
                word_noun("міністе\u{0301}рство"@, Gender::Neuter),
                word_static("закордо\u{0301}нних"@),
                word_static("справ"@),
            ],
        })
    } else if key == "дпс"@ {
        Some(AbbrModel {
            gender_class: "гривень"@,
            words: seq![
                word_adj("держа\u{0301}вна"@),
                word_adj("податко\u{0301}ва"@),
                word_noun("слу\u{0301}жба"@, Gender::Feminine),
            ],
        })
    } else if key == "дмс"@ {
        Some(AbbrModel {
            gender_class: "гривень"@,
            words: seq![
                word_adj("держа\u{0301}вна"@),
                word_adj("міграці\u{0301}йна"@),
                word_noun("слу\u{0301}жба"@, Gender::Feminine),
            ],
        })
    } else if key == "назк"@ {
        Some(AbbrModel {
            gender_class: "імен"@,
            words: seq![
                word_adj("націона\u{0301}льне"@),
                word_noun("аге\u{0301}нтство"@, Gender::Neuter),
                word_static("з"@),
                word_static("пита\u{0301}нь"@),
                word_static("запобіга\u{0301}ння"@),
                word_static("кору\u{0301}пції"@),
            ],
        })
    } else if key == "арма"@ {
        Some(AbbrModel {
            gender_class: "імен"@,
            words: seq![
                word_noun("аге\u{0301}нтство"@, Gender::Neuter),
                word_static("з"@),
                word_static("ро\u{0301}зшуку"@),
                word_static("та"@),
                word_static("мене\u{0301}джменту"@),
                word_static("акти\u{0301}вів"@),
            ],
        })
    } else {
        None
    }
}

/// Abbreviations, part 5 of 6.
pub open spec fn abbr_part4(key: Seq<char>) -> Option<AbbrModel> {
    if key == "сап"@ {
        Some(AbbrModel {
            gender_class: "гривень"@,
            words: seq![
                word_adj("спеціалізо\u{0301}вана"@),
                word_adj("антикорупці\u{0301}йна"@),
                word_noun("прокурату\u{0301}ра"@, Gender::Feminine),
            ],
        })
    } else if key == "огп"@ {
        Some(AbbrModel {
            gender_class: "поверхів"@,
            words: seq![
                word_noun("о\u{0301}фіс"@, Gender::Masculine),
                word_static("Генера\u{0301}льного"@),
                word_static("прокуро\u{0301}ра"@),
            ],
        })
    } else if key == "удо"@ {
        Some(AbbrModel {
            gender_class: "імен"@,
            words: seq![
                word_noun("управлі\u{0301}ння"@, Gender::Neuter),
                word_static("держа\u{0301}вної"@),
                word_static("охоро\u{0301}ни"@),
            ],
        })
    } else if key == "амку"@ {
        Some(AbbrModel {
            gender_class: "поверхів"@,
            words: seq![
                word_adj("антимонопо\u{0301}льний"@),
                word_noun("коміте\u{0301}т"@, Gender::Masculine),
                word_static("Украї\u{0301}ни"@),
            ],
        })
    } else if key == "пфу"@ {
        Some(AbbrModel {
            gender_class: "поверхів"@,
            words: seq![
                word_adj("пенсі\u{0301}йний"@),
                word_noun("фонд"@, Gender::Masculine),
                word_static("Украї\u{0301}ни"@),
            ],
        })
    } else if key == "фдму"@ {
        Some(AbbrModel {
            gender_class: "поверхів"@,
            words: seq![
                word_noun("фонд"@, Gender::Masculine),
                word_static("держа\u{0301}вного"@),
                word_static("ма\u{0301}йна"@),
                word_static("Украї\u{0301}ни"@),
            ],
        })
    } else if key == "прат"@ {
        Some(AbbrModel {
            gender_class: "імен"@,
            words: seq![
                word_adj("прива\u{0301}тне"@),
                word_adj("акціоне\u{0301}рне"@),
                word_noun("товари\u{0301}ство"@, Gender::Neuter),
            ],
        })
    } else if key == "ат"@ {
        Some(AbbrModel {
            gender_class: "імен"@,
            words: seq![
                word_adj("акціоне\u{0301}рне"@),
                word_noun("товари\u{0301}ство"@, Gender::Neuter),
            ],
        })
    } else if key == "пат"@ {
        Some(AbbrModel {
            gender_class: "імен"@,
            words: seq![
                word_adj("публі\u{0301}чне"@),
                word_adj("акціоне\u{0301}рне"@),
                word_noun("товари\u{0301}ство"@, Gender::Neuter),
            ],
        })
    } else if key == "жбк"@ {
        Some(AbbrModel {
            gender_class: "поверхів"@,
            words: seq![
                word_adj("житло\u{0301}во-будіве\u{0301}льний"@),
                word_noun("кооперати\u{0301}в"@, Gender::Masculine),
            ],
        })
    } else if key == "квед"@ {
        Some(AbbrModel {
            gender_class: "поверхів"@,
            words: seq![
                word_noun("класифіка\u{0301}тор"@, Gender::Masculine),
                word_static("ви\u{0301}дів"@),
                word_static("економі\u{0301}чної"@),
                word_static("дія\u{0301}льності"@),
            ],
        })
    } else if key == "пдв"@ {
        Some(AbbrModel {
            gender_class: "поверхів"@,
            words: seq![
                word_noun("пода\u{0301}ток"@, Gender::Masculine),
                word_static("на"@),
                word_static("до\u{0301}дану"@),
                word_static("ва\u{0301}ртість"@),
            ],
        })
    } else if key == "єсв"@ {
        Some(AbbrModel {
            gender_class: "поверхів"@,
            words: seq![
                word_adj("єди\u{0301}ний"@),
                word_adj("соціа\u{0301}льний"@),
                word_noun("вне\u{0301}сок"@, Gender::Masculine),
            ],
        })
    } else if key == "пдфо"@ {
        Some(AbbrModel {
            gender_class: "поверхів"@,
            words: seq![
                word_noun("пода\u{0301}ток"@, Gender::Masculine),
                word_static("на"@),
                word_static("дохо\u{0301}ди"@),
                word_static("фізи\u{0301}чних"@),
                word_static("осі\u{0301}б"@),
            ],
        })
    } else if key == "рро"@ {
        Some(AbbrModel {
            gender_class: "поверхів"@,
            words: seq![
                word_noun("реєстра\u{0301}тор"@, Gender::Masculine),
                word_static("розрахунко\u{0301}вих"@),
                word_static("опера\u{0301}цій"@),
            ],
        })
    } else if key == "прро"@ {
        Some(AbbrModel {
            gender_class: "поверхів"@,
            words: seq![
                word_adj("програ\u{0301}мний"@),
                word_noun("реєстра\u{0301}тор"@, Gender::Masculine),
                word_static("розрахунко\u{0301}вих"@),
                word_static("опера\u{0301}цій"@),
            ],
        })
    } else if key == "мфо"@ {
        Some(AbbrModel {
            gender_class: "поверхів"@,
            words: seq![
                word_adj("міжфілі\u{0301}йний"@),
                word_noun("оборо\u{0301}т"@, Gender::Masculine),
            ],
        })
    } else if key == "рацс"@ {
        Some(AbbrModel {
            gender_class: "гривень"@,
            words: seq![
                word_noun("реєстра\u{0301}ція"@, Gender::Feminine),
                word_static("акти\u{0301}в"@),
                word_static("циві\u{0301}льного"@),
                word_static("ста\u{0301}ну"@),
            ],
        })
    } else if key == "вооз"@ {
        Some(AbbrModel {
            gender_class: "гривень"@,
            words: seq![
                word_adj("Всесві\u{0301}тня"@),
                word_noun("організа\u{0301}ція"@, Gender::Feminine),
                word_static("охоро\u{0301}ни"@),
                word_static("здоро\u{0301}в'я"@),
            ],
        })
    } else if key == "магате"@ {
        Some(AbbrModel {
            gender_class: "імен"@,
            words: seq![
                word_adj("Міжнаро\u{0301}дне"@),
                word_noun("аге\u{0301}нтство"@, Gender::Neuter),
                word_static("з"@),
                word_static("а\u{0301}томної"@),
                word_static("енерге\u{0301}тики"@),
            ],
        })
    } else {
        None
    }
}

/// Abbreviations, part 6 of 6.
pub open spec fn abbr_part5(key: Seq<char>) -> Option<AbbrModel> {
    if key == "юнеско"@ {
        Some(AbbrModel {
            gender_class: "гривень"@,
            words: seq![
                word_noun("організа\u{0301}ція"@, Gender::Feminine),
                word_static("Об'є\u{0301}днаних"@),
                word_static("На\u{0301}цій"@),
                word_static("з"@),
                word_static("пита\u{0301}нь"@),
                word_static("осві\u{0301}ти,"@),
                word_static("нау\u{0301}ки"@),
                word_static("і"@),
                word_static("культу\u{0301}ри"@),
            ],
        })
    } else if key == "мкчх"@ {
        Some(AbbrModel {
            gender_class: "поверхів"@,
            words: seq![
                word_adj("Міжнаро\u{0301}дний"@),
                word_noun("коміте\u{0301}т"@, Gender::Masculine),
                word_static("Черво\u{0301}ного"@),
                word_static("Хреста\u{0301}"@),
            ],
        })
    } else if key == "мкс"@ {
        Some(AbbrModel {
            gender_class: "поверхів"@,
            words: seq![
                word_adj("Міжнаро\u{0301}дний"@),
                word_adj("криміна\u{0301}льний"@),
                word_noun("суд"@, Gender::Masculine),
            ],
        })
    } else if key == "шмд"@ {
        Some(AbbrModel {
            gender_class: "гривень"@,
            words: seq![
                word_adj("швидка\u{0301}"@),
                word_adj("меди\u{0301}чна"@),
                word_noun("допомо\u{0301}га"@, Gender::Feminine),
            ],
        })
    } else if key == "мсек"@ {
        Some(AbbrModel {
            gender_class: "гривень"@,
            words: seq![
                word_adj("меди\u{0301}ко-соціа\u{0301}льна"@),
                word_adj("експе\u{0301}ртна"@),
                word_noun("комі\u{0301}сія"@, Gender::Feminine),
            ],
        })
    } else if key == "ввк"@ {
        Some(AbbrModel {
            gender_class: "гривень"@,
            words: seq![
                word_adj("військо\u{0301}во-лі\u{0301}карська"@),
                word_noun("комі\u{0301}сія"@, Gender::Feminine),
            ],
        })
    } else if key == "нсзу"@ {
        Some(AbbrModel {
            gender_class: "гривень"@,
            words: seq![
                word_adj("Націона\u{0301}льна"@),
                word_noun("слу\u{0301}жба"@, Gender::Feminine),
                word_static("здоро\u{0301}в'я"@),
                word_static("Украї\u{0301}ни"@),
            ],
        })
    } else if key == "грз"@ {
        Some(AbbrModel {
            gender_class: "імен"@,
            words: seq![
                word_adj("го\u{0301}стре"@),
                word_adj("респірато\u{0301}рне"@),
                word_noun("захво\u{0301}рювання"@, Gender::Neuter),
            ],
        })
    } else if key == "зпсш"@ {
        Some(AbbrModel {
            gender_class: "імен"@,
            words: seq![
                word_noun_pl("захво\u{0301}рювання"@, Gender::Neuter),
                word_static("що"@),
                word_static("передаю\u{0301}ться"@),
                word_static("стате\u{0301}вим"@),
                word_static("шля\u{0301}хом"@),
            ],
        })
    } else if key == "кт"@ {
        Some(AbbrModel {
            gender_class: "гривень"@,
            words: seq![
                word_adj("комп'ю\u{0301}терна"@),
                word_noun("томогра\u{0301}фія"@, Gender::Feminine),
            ],
        })
    } else if key == "мрт"@ {
        Some(AbbrModel {
            gender_class: "гривень"@,
            words: seq![
                word_adj("магні\u{0301}тно-резона\u{0301}нсна"@),
                word_noun("томогра\u{0301}фія"@, Gender::Feminine),
            ],
        })
    } else if key == "узд"@ {
        Some(AbbrModel {
            gender_class: "гривень"@,
            words: seq![
                word_adj("ультразвукова\u{0301}"@),
                word_noun("діагно\u{0301}стика"@, Gender::Feminine),
            ],
        })
    } else if key == "екг"@ {
        Some(AbbrModel {
            gender_class: "гривень"@,
            words: seq![
                word_noun("електрокардіогра\u{0301}ма"@, Gender::Feminine),
            ],
        })
    } else if key == "зно"@ {
        Some(AbbrModel {
            gender_class: "імен"@,
            words: seq![
                word_adj("зо\u{0301}внішнє"@),
                word_adj("незале\u{0301}жне"@),
                word_noun("оціню\u{0301}вання"@, Gender::Neuter),
            ],
        })
    } else if key == "нмт"@ {
        Some(AbbrModel {
            gender_class: "поверхів"@,
            words: seq![
                word_adj("націона\u{0301}льний"@),
                word_adj("мультипредме\u{0301}тний"@),
                word_noun("тест"@, Gender::Masculine),
            ],
        })
    } else if key == "нуш"@ {
        Some(AbbrModel {
            gender_class: "гривень"@,
            words: seq![
                word_adj("Но\u{0301}ва"@),
                word_adj("украї\u{0301}нська"@),
                word_noun("шко\u{0301}ла"@, Gender::Feminine),
            ],
        })
    } else if key == "жкг"@ {
        Some(AbbrModel {
            gender_class: "імен"@,
            words: seq![
                word_adj("житло\u{0301}во-комуна\u{0301}льне"@),
                word_noun("господа\u{0301}рство"@, Gender::Neuter),
            ],
        })
    } else if key == "жк"@ {
        Some(AbbrModel {
            gender_class: "поверхів"@,
            words: seq![
                word_adj("житлови\u{0301}й"@),
                word_noun("ко\u{0301}мплекс"@, Gender::Masculine),
            ],
        })
    } else if key == "смс"@ {
        Some(AbbrModel {
            gender_class: "імен"@,
            words: seq![
                word_adj("коро\u{0301}тке"@),
                word_adj("тексто\u{0301}ве"@),
                word_noun("повідо\u{0301}млення"@, Gender::Neuter),
            ],
        })
    } else if key == "піб"@ {
        Some(AbbrModel {
            gender_class: "імен"@,
            words: seq![
                word_noun("прі\u{0301}звище"@, Gender::Neuter),
                word_static("ім'я\u{0301}"@),
                word_static("по"@),
                word_static("ба\u{0301}тькові"@),
            ],
        })
    } else {
        None
    }
}

/// The expansion of a known abbreviation, by its lower-case form.
pub open spec fn abbr_entry(key: Seq<char>) -> Option<AbbrModel> {
    if abbr_part0(key) is Some { abbr_part0(key) } else { if abbr_part1(key) is Some { abbr_part1(key) } else { if abbr_part2(key) is Some { abbr_part2(key) } else { if abbr_part3(key) is Some { abbr_part3(key) } else { if abbr_part4(key) is Some { abbr_part4(key) } else { abbr_part5(key) } } } } }
}

fn lookup_abbr_part0(key: &[char]) -> (r: Option<AbbrSpec>)
    ensures
        match r {
            Some(s) => abbr_part0(key@) == Some(s@),
            None => abbr_part0(key@) is None,
        },
{
    if eq_str(key, "сбу") {
        let words = vec![
            WordSpec::noun("слу\u{0301}жба", Gender::Feminine),
            WordSpec::static_word("безпе\u{0301}ки"),
            WordSpec::static_word("Украї\u{0301}ни"),
        ];
        assert(words@.map_values(|w: WordSpec| w@) =~= seq![
            word_noun("слу\u{0301}жба"@, Gender::Feminine),
            word_static("безпе\u{0301}ки"@),
            word_static("Украї\u{0301}ни"@),
        ]);
        return Some(AbbrSpec { gender_class: "гривень", words });
    }
    if eq_str(key, "дснс") {
        let words = vec![
            WordSpec::adj("держа\u{0301}вна"),
            WordSpec::noun("слу\u{0301}жба", Gender::Feminine),
            WordSpec::static_word("з"),
            WordSpec::static_word("надзвича\u{0301}йних"),
            WordSpec::static_word("ситуа\u{0301}цій"),
        ];
        assert(words@.map_values(|w: WordSpec| w@) =~= seq![
            word_adj("держа\u{0301}вна"@),
            word_noun("слу\u{0301}жба"@, Gender::Feminine),
            word_static("з"@),
            word_static("надзвича\u{0301}йних"@),
            word_static("ситуа\u{0301}цій"@),
        ]);
        return Some(AbbrSpec { gender_class: "гривень", words });
    }
    if eq_str(key, "дпсу") {
        let words = vec![
            WordSpec::adj("держа\u{0301}вна"),
            WordSpec::adj("прикордо\u{0301}нна"),
            WordSpec::noun("слу\u{0301}жба", Gender::Feminine),
            WordSpec::static_word("Украї\u{0301}ни"),
        ];
        assert(words@.map_values(|w: WordSpec| w@) =~= seq![
            word_adj("держа\u{0301}вна"@),
            word_adj("прикордо\u{0301}нна"@),
            word_noun("слу\u{0301}жба"@, Gender::Feminine),
            word_static("Украї\u{0301}ни"@),
        ]);
        return Some(AbbrSpec { gender_class: "гривень", words });
    }
    if eq_str(key, "вру") {
        let words = vec![
            WordSpec::adj("верхо\u{0301}вна"),
            WordSpec::noun("ра\u{0301}да", Gender::Feminine),
            WordSpec::static_word("Украї\u{0301}ни"),
        ];
        assert(words@.map_values(|w: WordSpec| w@) =~= seq![
            word_adj("верхо\u{0301}вна"@),
            word_noun("ра\u{0301}да"@, Gender::Feminine),
            word_static("Украї\u{0301}ни"@),
        ]);
        return Some(AbbrSpec { gender_class: "гривень", words });
    }
    if eq_str(key, "рнбо") {
        let words = vec![
            WordSpec::noun("ра\u{0301}да", Gender::Feminine),
            WordSpec::static_word("націона\u{0301}льної"),
            WordSpec::static_word("безпе\u{0301}ки"),
            WordSpec::static_word("і"),
            WordSpec::static_word("оборо\u{0301}ни"),
            WordSpec::static_word("Украї\u{0301}ни"),
        ];
        assert(words@.map_values(|w: WordSpec| w@) =~= seq![
            word_noun("ра\u{0301}да"@, Gender::Feminine),
            word_static("націона\u{0301}льної"@),
            word_static("безпе\u{0301}ки"@),
            word_static("і"@),
            word_static("оборо\u{0301}ни"@),
            word_static("Украї\u{0301}ни"@),
        ]);
        return Some(AbbrSpec { gender_class: "гривень", words });
    }
    if eq_str(key, "оон") {
        let words = vec![
            WordSpec::noun("організа\u{0301}ція", Gender::Feminine),
            WordSpec::static_word("об'є\u{0301}днаних"),
            WordSpec::static_word("на\u{0301}цій"),
        ];
        assert(words@.map_values(|w: WordSpec| w@) =~= seq![
            word_noun("організа\u{0301}ція"@, Gender::Feminine),
            word_static("об'є\u{0301}днаних"@),
            word_static("на\u{0301}цій"@),
        ]);
        return Some(AbbrSpec { gender_class: "гривень", words });
    }
    if eq_str(key, "ппо") {
        let words = vec![
            WordSpec::adj("протипові\u{0301}тряна"),
            WordSpec::noun("оборо\u{0301}на", Gender::Feminine),
        ];
        assert(words@.map_values(|w: WordSpec| w@) =~= seq![
            word_adj("протипові\u{0301}тряна"@),
            word_noun("оборо\u{0301}на"@, Gender::Feminine),
        ]);
        return Some(AbbrSpec { gender_class: "гривень", words });
    }
    if eq_str(key, "реб") {
        let words = vec![
            WordSpec::adj("радіоелектро\u{0301}нна"),
            WordSpec::noun("боротьба\u{0301}", Gender::Feminine),
        ];
        assert(words@.map_values(|w: WordSpec| w@) =~= seq![
            word_adj("радіоелектро\u{0301}нна"@),
            word_noun("боротьба\u{0301}"@, Gender::Feminine),
        ]);
        return Some(AbbrSpec { gender_class: "гривень", words });
    }
    if eq_str(key, "гес") {
        let words = vec![
            WordSpec::noun("гідроелектроста\u{0301}нція", Gender::Feminine),
        ];
        assert(words@.map_values(|w: WordSpec| w@) =~= seq![
            word_noun("гідроелектроста\u{0301}нція"@, Gender::Feminine),
        ]);
        return Some(AbbrSpec { gender_class: "гривень", words });
    }
    if eq_str(key, "аес") {
        let words = vec![
            WordSpec::adj("а\u{0301}томна"),
            WordSpec::noun("електроста\u{0301}нція", Gender::Feminine),
        ];
        assert(words@.map_values(|w: WordSpec| w@) =~= seq![
            word_adj("а\u{0301}томна"@),
            word_noun("електроста\u{0301}нція"@, Gender::Feminine),
        ]);
        return Some(AbbrSpec { gender_class: "гривень", words });
    }
    if eq_str(key, "тес") {
        let words = vec![
            WordSpec::adj("теплова\u{0301}"),
            WordSpec::noun("електроста\u{0301}нція", Gender::Feminine),
        ];
        assert(words@.map_values(|w: WordSpec| w@) =~= seq![
            word_adj("теплова\u{0301}"@),
            word_noun("електроста\u{0301}нція"@, Gender::Feminine),
        ]);
        return Some(AbbrSpec { gender_class: "гривень", words });
    }
    if eq_str(key, "тцк") {
        let words = vec![
            WordSpec::adj("територіа\u{0301}льний"),
            WordSpec::noun("це\u{0301}нтр", Gender::Masculine),
            WordSpec::static_word("комплекту\u{0301}вання"),
        ];
        assert(words@.map_values(|w: WordSpec| w@) =~= seq![
            word_adj("територіа\u{0301}льний"@),
            word_noun("це\u{0301}нтр"@, Gender::Masculine),
            word_static("комплекту\u{0301}вання"@),
        ]);
        return Some(AbbrSpec { gender_class: "поверхів", words });
    }
    if eq_str(key, "ртцк") {
        let words = vec![
            WordSpec::adj("райо\u{0301}нний"),
            WordSpec::adj("територіа\u{0301}льний"),
            WordSpec::noun("це\u{0301}нтр", Gender::Masculine),
            WordSpec::static_word("комплекту\u{0301}вання"),
        ];
        assert(words@.map_values(|w: WordSpec| w@) =~= seq![
            word_adj("райо\u{0301}нний"@),
            word_adj("територіа\u{0301}льний"@),
            word_noun("це\u{0301}нтр"@, Gender::Masculine),
            word_static("комплекту\u{0301}вання"@),
        ]);
        return Some(AbbrSpec { gender_class: "поверхів", words });
    }
    if eq_str(key, "нбу") {
        let words = vec![
            WordSpec::adj("націона\u{0301}льний"),
            WordSpec::noun("банк", Gender::Masculine),
            WordSpec::static_word("Украї\u{0301}ни"),
        ];
        assert(words@.map_values(|w: WordSpec| w@) =~= seq![
            word_adj("націона\u{0301}льний"@),
            word_noun("банк"@, Gender::Masculine),
            word_static("Украї\u{0301}ни"@),
        ]);
        return Some(AbbrSpec { gender_class: "поверхів", words });
    }
    if eq_str(key, "єс") {
        let words = vec![
            WordSpec::adj("європейськи\u{0301}й"),
            WordSpec::noun("сою\u{0301}з", Gender::Masculine),
        ];
        assert(words@.map_values(|w: WordSpec| w@) =~= seq![
            word_adj("європейськи\u{0301}й"@),
            word_noun("сою\u{0301}з"@, Gender::Masculine),
        ]);
        return Some(AbbrSpec { gender_class: "поверхів", words });
    }
    if eq_str(key, "цнап") {
        let words = vec![
            WordSpec::noun("це\u{0301}нтр", Gender::Masculine),
            WordSpec::static_word("нада\u{0301}ння"),
            WordSpec::static_word("адміністрати\u{0301}вних"),
            WordSpec::static_word("послу\u{0301}г"),
        ];
        assert(words@.map_values(|w: WordSpec| w@) =~= seq![
            word_noun("це\u{0301}нтр"@, Gender::Masculine),
            word_static("нада\u{0301}ння"@),
            word_static("адміністрати\u{0301}вних"@),
            word_static("послу\u{0301}г"@),
        ]);
        return Some(AbbrSpec { gender_class: "поверхів", words });
    }
    if eq_str(key, "кпп") {
        let words = vec![
            WordSpec::adj("контро\u{0301}льно-пропускни\u{0301}й"),
            WordSpec::noun("пу\u{0301}нкт", Gender::Masculine),
        ];
        assert(words@.map_values(|w: WordSpec| w@) =~= seq![
            word_adj("контро\u{0301}льно-пропускни\u{0301}й"@),
            word_noun("пу\u{0301}нкт"@, Gender::Masculine),
        ]);
        return Some(AbbrSpec { gender_class: "поверхів", words });
    }
    if eq_str(key, "бпла") {
        let words = vec![
            WordSpec::adj("безпіло\u{0301}тний"),
            WordSpec::adj("літа\u{0301}льний"),
            WordSpec::noun("апара\u{0301}т", Gender::Masculine),
        ];
        assert(words@.map_values(|w: WordSpec| w@) =~= seq![
            word_adj("безпіло\u{0301}тний"@),
            word_adj("літа\u{0301}льний"@),
            word_noun("апара\u{0301}т"@, Gender::Masculine),
        ]);
        return Some(AbbrSpec { gender_class: "поверхів", words });
    }
    if eq_str(key, "зрк") {
        let words = vec![
            WordSpec::adj("зені\u{0301}тно-раке\u{0301}тний"),
            WordSpec::noun("ко\u{0301}мплекс", Gender::Masculine),
        ];
        assert(words@.map_values(|w: WordSpec| w@) =~= seq![
            word_adj("зені\u{0301}тно-раке\u{0301}тний"@),
            word_noun("ко\u{0301}мплекс"@, Gender::Masculine),
        ]);
        return Some(AbbrSpec { gender_class: "поверхів", words });
    }
    if eq_str(key, "мвс") {
        let words = vec![
            WordSpec::noun("міністе\u{0301}рство", Gender::Neuter),
            WordSpec::static_word("вну\u{0301}трішніх"),
            WordSpec::static_word("справ"),
        ];
        assert(words@.map_values(|w: WordSpec| w@) =~= seq![
            word_noun("міністе\u{0301}рство"@, Gender::Neuter),
            word_static("вну\u{0301}трішніх"@),
            word_static("справ"@),
        ]);
        return Some(AbbrSpec { gender_class: "імен", words });
    }
    None
}

fn lookup_abbr_part1(key: &[char]) -> (r: Option<AbbrSpec>)
    ensures
        match r {
            Some(s) => abbr_part1(key@) == Some(s@),
            None => abbr_part1(key@) is None,
        },
{
    if eq_str(key, "гур") {
        let words = vec![
            WordSpec::adj("голо\u{0301}вне"),
            WordSpec::noun("управлі\u{0301}ння", Gender::Neuter),
            WordSpec::static_word("ро\u{0301}звідки"),
        ];
        assert(words@.map_values(|w: WordSpec| w@) =~= seq![
            word_adj("голо\u{0301}вне"@),
            word_noun("управлі\u{0301}ння"@, Gender::Neuter),
            word_static("ро\u{0301}звідки"@),
        ]);
        return Some(AbbrSpec { gender_class: "імен", words });
    }
    if eq_str(key, "моз") {
        let words = vec![
            WordSpec::noun("міністе\u{0301}рство", Gender::Neuter),
            WordSpec::static_word("охоро\u{0301}ни"),
            WordSpec::static_word("здоро\u{0301}в'я"),
            WordSpec::static_word("Украї\u{0301}ни"),
        ];
        assert(words@.map_values(|w: WordSpec| w@) =~= seq![
            word_noun("міністе\u{0301}рство"@, Gender::Neuter),
            word_static("охоро\u{0301}ни"@),
            word_static("здоро\u{0301}в'я"@),
            word_static("Украї\u{0301}ни"@),
        ]);
        return Some(AbbrSpec { gender_class: "імен", words });
    }
    if eq_str(key, "мон") {
        let words = vec![
            WordSpec::noun("міністе\u{0301}рство", Gender::Neuter),
            WordSpec::static_word("осві\u{0301}ти"),
            WordSpec::static_word("і"),
            WordSpec::static_word("нау\u{0301}ки"),
            WordSpec::static_word("Украї\u{0301}ни"),
        ];
        assert(words@.map_values(|w: WordSpec| w@) =~= seq![
            word_noun("міністе\u{0301}рство"@, Gender::Neuter),
            word_static("осві\u{0301}ти"@),
            word_static("і"@),
            word_static("нау\u{0301}ки"@),
            word_static("Украї\u{0301}ни"@),
        ]);
        return Some(AbbrSpec { gender_class: "імен", words });
    }
    if eq_str(key, "набу") {
        let words = vec![
            WordSpec::adj("націона\u{0301}льне"),
            WordSpec::adj("антикорупці\u{0301}йне"),
            WordSpec::static_word("бюро\u{0301}"),
            WordSpec::static_word("Украї\u{0301}ни"),
        ];
        assert(words@.map_values(|w: WordSpec| w@) =~= seq![
            word_adj("націона\u{0301}льне"@),
            word_adj("антикорупці\u{0301}йне"@),
            word_static("бюро\u{0301}"@),
            word_static("Украї\u{0301}ни"@),
        ]);
        return Some(AbbrSpec { gender_class: "імен", words });
    }
    if eq_str(key, "дбр") {
        let words = vec![
            WordSpec::adj("держа\u{0301}вне"),
            WordSpec::static_word("бюро\u{0301}"),
            WordSpec::static_word("розслі\u{0301}дувань"),
        ];
        assert(words@.map_values(|w: WordSpec| w@) =~= seq![
            word_adj("держа\u{0301}вне"@),
            word_static("бюро\u{0301}"@),
            word_static("розслі\u{0301}дувань"@),
        ]);
        return Some(AbbrSpec { gender_class: "імен", words });
    }
    if eq_str(key, "зсу") {
        let words = vec![
            WordSpec::adj("збро\u{0301}йні"),
            WordSpec::noun_pl("си\u{0301}ли", Gender::Feminine),
            WordSpec::static_word("Украї\u{0301}ни"),
        ];
        assert(words@.map_values(|w: WordSpec| w@) =~= seq![
            word_adj("збро\u{0301}йні"@),
            word_noun_pl("си\u{0301}ли"@, Gender::Feminine),
            word_static("Украї\u{0301}ни"@),
        ]);
        return Some(AbbrSpec { gender_class: "гривень", words });
    }
    if eq_str(key, "сша") {
        let words = vec![
            WordSpec::adj("сполу\u{0301}чені"),
            WordSpec::noun_pl("шта\u{0301}ти", Gender::Masculine),
            WordSpec::static_word("аме\u{0301}рики"),
        ];
        assert(words@.map_values(|w: WordSpec| w@) =~= seq![
            word_adj("сполу\u{0301}чені"@),
            word_noun_pl("шта\u{0301}ти"@, Gender::Masculine),
            word_static("аме\u{0301}рики"@),
        ]);
        return Some(AbbrSpec { gender_class: "поверхів", words });
    }
    if eq_str(key, "змі") {
        let words = vec![
            WordSpec::noun_pl("за\u{0301}соби", Gender::Masculine),
            WordSpec::static_word("ма\u{0301}сової"),
            WordSpec::static_word("інформа\u{0301}ції"),
        ];
        assert(words@.map_values(|w: WordSpec| w@) =~= seq![
            word_noun_pl("за\u{0301}соби"@, Gender::Masculine),
            word_static("ма\u{0301}сової"@),
            word_static("інформа\u{0301}ції"@),
        ]);
        return Some(AbbrSpec { gender_class: "поверхів", words });
    }
    if eq_str(key, "кму") {
        let words = vec![
            WordSpec::noun("Кабіне\u{0301}т", Gender::Masculine),
            WordSpec::static_word("Міні\u{0301}стрів"),
            WordSpec::static_word("Украї\u{0301}ни"),
        ];
        assert(words@.map_values(|w: WordSpec| w@) =~= seq![
            word_noun("Кабіне\u{0301}т"@, Gender::Masculine),
            word_static("Міні\u{0301}стрів"@),
            word_static("Украї\u{0301}ни"@),
        ]);
        return Some(AbbrSpec { gender_class: "поверхів", words });
    }
    if eq_str(key, "оп") {
        let words = vec![
            WordSpec::noun("О\u{0301}фіс", Gender::Masculine),
            WordSpec::static_word("Президе\u{0301}нта"),
        ];
        assert(words@.map_values(|w: WordSpec| w@) =~= seq![
            word_noun("О\u{0301}фіс"@, Gender::Masculine),
            word_static("Президе\u{0301}нта"@),
        ]);
        return Some(AbbrSpec { gender_class: "поверхів", words });
    }
    if eq_str(key, "ова") {
        let words = vec![
            WordSpec::adj("обласна\u{0301}"),
            WordSpec::adj("військо\u{0301}ва"),
            WordSpec::noun("адміністра\u{0301}ція", Gender::Feminine),
        ];
        assert(words@.map_values(|w: WordSpec| w@) =~= seq![
            word_adj("обласна\u{0301}"@),
            word_adj("військо\u{0301}ва"@),
            word_noun("адміністра\u{0301}ція"@, Gender::Feminine),
        ]);
        return Some(AbbrSpec { gender_class: "гривень", words });
    }
    if eq_str(key, "рва") {
        let words = vec![
            WordSpec::adj("районна\u{0301}"),
            WordSpec::adj("військо\u{0301}ва"),
            WordSpec::noun("адміністра\u{0301}ція", Gender::Feminine),
        ];
        assert(words@.map_values(|w: WordSpec| w@) =~= seq![
            word_adj("районна\u{0301}"@),
            word_adj("військо\u{0301}ва"@),
            word_noun("адміністра\u{0301}ція"@, Gender::Feminine),
        ]);
        return Some(AbbrSpec { gender_class: "гривень", words });
    }
    if eq_str(key, "мва") {
        let words = vec![
            WordSpec::adj("міська\u{0301}"),
            WordSpec::adj("військо\u{0301}ва"),
            WordSpec::noun("адміністра\u{0301}ція", Gender::Feminine),
        ];
        assert(words@.map_values(|w: WordSpec| w@) =~= seq![
            word_adj("міська\u{0301}"@),
            word_adj("військо\u{0301}ва"@),
            word_noun("адміністра\u{0301}ція"@, Gender::Feminine),
        ]);
        return Some(AbbrSpec { gender_class: "гривень", words });
    }
    if eq_str(key, "кмда") {
        let words = vec![
            WordSpec::adj("Ки\u{0301}ївська"),
            WordSpec::adj("міська\u{0301}"),
            WordSpec::adj("держа\u{0301}вна"),
            WordSpec::noun("адміністра\u{0301}ція", Gender::Feminine),
        ];
        assert(words@.map_values(|w: WordSpec| w@) =~= seq![
            word_adj("Ки\u{0301}ївська"@),
            word_adj("міська\u{0301}"@),
            word_adj("держа\u{0301}вна"@),
            word_noun("адміністра\u{0301}ція"@, Gender::Feminine),
        ]);
        return Some(AbbrSpec { gender_class: "гривень", words });
    }
    if eq_str(key, "кмва") {
        let words = vec![
            WordSpec::adj("Ки\u{0301}ївська"),
            WordSpec::adj("міська\u{0301}"),
            WordSpec::adj("військо\u{0301}ва"),
            WordSpec::noun("адміністра\u{0301}ція", Gender::Feminine),
        ];
        assert(words@.map_values(|w: WordSpec| w@) =~= seq![
            word_adj("Ки\u{0301}ївська"@),
            word_adj("міська\u{0301}"@),
            word_adj("військо\u{0301}ва"@),
            word_noun("адміністра\u{0301}ція"@, Gender::Feminine),
        ]);
        return Some(AbbrSpec { gender_class: "гривень", words });
    }
    if eq_str(key, "гш") {
        let words = vec![
            WordSpec::adj("Генера\u{0301}льний"),
            WordSpec::noun("штаб", Gender::Masculine),
        ];
        assert(words@.map_values(|w: WordSpec| w@) =~= seq![
            word_adj("Генера\u{0301}льний"@),
            word_noun("штаб"@, Gender::Masculine),
        ]);
        return Some(AbbrSpec { gender_class: "поверхів", words });
    }
    if eq_str(key, "нпу") {
        let words = vec![
            WordSpec::adj("Націона\u{0301}льна"),
            WordSpec::noun("полі\u{0301}ція", Gender::Feminine),
            WordSpec::static_word("Украї\u{0301}ни"),
        ];
        assert(words@.map_values(|w: WordSpec| w@) =~= seq![
            word_adj("Націона\u{0301}льна"@),
            word_noun("полі\u{0301}ція"@, Gender::Feminine),
            word_static("Украї\u{0301}ни"@),
        ]);
        return Some(AbbrSpec { gender_class: "гривень", words });
    }
    if eq_str(key, "кп") {
        let words = vec![
            WordSpec::adj("комуна\u{0301}льне"),
            WordSpec::noun("підпри\u{0301}ємство", Gender::Neuter),
        ];
        assert(words@.map_values(|w: WordSpec| w@) =~= seq![
            word_adj("комуна\u{0301}льне"@),
            word_noun("підпри\u{0301}ємство"@, Gender::Neuter),
        ]);
        return Some(AbbrSpec { gender_class: "яблук", words });
    }
    if eq_str(key, "отг") {
        let words = vec![
            WordSpec::adj("об'єдна\u{0301}на"),
            WordSpec::adj("територіа\u{0301}льна"),
            WordSpec::noun("грома\u{0301}да", Gender::Feminine),
        ];
        assert(words@.map_values(|w: WordSpec| w@) =~= seq![
            word_adj("об'єдна\u{0301}на"@),
            word_adj("територіа\u{0301}льна"@),
            word_noun("грома\u{0301}да"@, Gender::Feminine),
        ]);
        return Some(AbbrSpec { gender_class: "гривень", words });
    }
    if eq_str(key, "осбб") {
        let words = vec![
            WordSpec::noun("об'є\u{0301}днання", Gender::Neuter),
            WordSpec::static_word("співвла\u{0301}сників"),
            WordSpec::static_word("багатокварти\u{0301}рного"),
            WordSpec::static_word("буди\u{0301}нку"),
        ];
        assert(words@.map_values(|w: WordSpec| w@) =~= seq![
            word_noun("об'є\u{0301}днання"@, Gender::Neuter),
            word_static("співвла\u{0301}сників"@),
            word_static("багатокварти\u{0301}рного"@),
            word_static("буди\u{0301}нку"@),
        ]);
        return Some(AbbrSpec { gender_class: "яблук", words });
    }
    None
}

fn lookup_abbr_part2(key: &[char]) -> (r: Option<AbbrSpec>)
    ensures
        match r {
            Some(s) => abbr_part2(key@) == Some(s@),
            None => abbr_part2(key@) is None,
        },
{
    if eq_str(key, "фоп") {
        let words = vec![
            WordSpec::adj("фізи\u{0301}чна"),
            WordSpec::noun("осо\u{0301}ба", Gender::Feminine),
            WordSpec::noun("підприє\u{0301}мець", Gender::Masculine),
        ];
        assert(words@.map_values(|w: WordSpec| w@) =~= seq![
            word_adj("фізи\u{0301}чна"@),
            word_noun("осо\u{0301}ба"@, Gender::Feminine),
            word_noun("підприє\u{0301}мець"@, Gender::Masculine),
        ]);
        return Some(AbbrSpec { gender_class: "гривень", words });
    }
    if eq_str(key, "тов") {
        let words = vec![
            WordSpec::noun("товари\u{0301}ство", Gender::Neuter),
            WordSpec::static_word("з"),
            WordSpec::static_word("обме\u{0301}женою"),
            WordSpec::static_word("відповіда\u{0301}льністю"),
        ];
        assert(words@.map_values(|w: WordSpec| w@) =~= seq![
            word_noun("товари\u{0301}ство"@, Gender::Neuter),
            word_static("з"@),
            word_static("обме\u{0301}женою"@),
            word_static("відповіда\u{0301}льністю"@),
        ]);
        return Some(AbbrSpec { gender_class: "яблук", words });
    }
    if eq_str(key, "нек") {
        let words = vec![
            WordSpec::adj("націона\u{0301}льна"),
            WordSpec::adj("енергети\u{0301}чна"),
            WordSpec::noun("компа\u{0301}нія", Gender::Feminine),
        ];
        assert(words@.map_values(|w: WordSpec| w@) =~= seq![
            word_adj("націона\u{0301}льна"@),
            word_adj("енергети\u{0301}чна"@),
            word_noun("компа\u{0301}нія"@, Gender::Feminine),
        ]);
        return Some(AbbrSpec { gender_class: "гривень", words });
    }
    if eq_str(key, "цвк") {
        let words = vec![
            WordSpec::adj("Центра\u{0301}льна"),
            WordSpec::adj("ви\u{0301}борча"),
            WordSpec::noun("комі\u{0301}сія", Gender::Feminine),
        ];
        assert(words@.map_values(|w: WordSpec| w@) =~= seq![
            word_adj("Центра\u{0301}льна"@),
            word_adj("ви\u{0301}борча"@),
            word_noun("комі\u{0301}сія"@, Gender::Feminine),
        ]);
        return Some(AbbrSpec { gender_class: "гривень", words });
    }
    if eq_str(key, "впо") {
        let words = vec![
            WordSpec::static_word("внутрі\u{0301}шньо"),
            WordSpec::adj("перемі\u{0301}щена"),
            WordSpec::noun("осо\u{0301}ба", Gender::Feminine),
        ];
        assert(words@.map_values(|w: WordSpec| w@) =~= seq![
            word_static("внутрі\u{0301}шньо"@),
            word_adj("перемі\u{0301}щена"@),
            word_noun("осо\u{0301}ба"@, Gender::Feminine),
        ]);
        return Some(AbbrSpec { gender_class: "гривень", words });
    }
    if eq_str(key, "зво") {
        let words = vec![
            WordSpec::noun("за\u{0301}клад", Gender::Masculine),
            WordSpec::static_word("ви\u{0301}щої"),
            WordSpec::static_word("осві\u{0301}ти"),
        ];
        assert(words@.map_values(|w: WordSpec| w@) =~= seq![
            word_noun("за\u{0301}клад"@, Gender::Masculine),
            word_static("ви\u{0301}щої"@),
            word_static("осві\u{0301}ти"@),
        ]);
        return Some(AbbrSpec { gender_class: "поверхів", words });
    }
    if eq_str(key, "внз") {
        let words = vec![
            WordSpec::adj("ви\u{0301}щий"),
            WordSpec::adj("навча\u{0301}льний"),
            WordSpec::noun("за\u{0301}клад", Gender::Masculine),
        ];
        assert(words@.map_values(|w: WordSpec| w@) =~= seq![
            word_adj("ви\u{0301}щий"@),
            word_adj("навча\u{0301}льний"@),
            word_noun("за\u{0301}клад"@, Gender::Masculine),
        ]);
        return Some(AbbrSpec { gender_class: "поверхів", words });
    }
    if eq_str(key, "нану") {
        let words = vec![
            WordSpec::adj("Націона\u{0301}льна"),
            WordSpec::noun("акаде\u{0301}мія", Gender::Feminine),
            WordSpec::static_word("нау\u{0301}к"),
            WordSpec::static_word("Украї\u{0301}ни"),
        ];
        assert(words@.map_values(|w: WordSpec| w@) =~= seq![
            word_adj("Націона\u{0301}льна"@),
            word_noun("акаде\u{0301}мія"@, Gender::Feminine),
            word_static("нау\u{0301}к"@),
            word_static("Украї\u{0301}ни"@),
        ]);
        return Some(AbbrSpec { gender_class: "гривень", words });
    }
    if eq_str(key, "мвф") {
        let words = vec![
            WordSpec::adj("Міжнаро\u{0301}дний"),
            WordSpec::adj("валю\u{0301}тний"),
            WordSpec::noun("фонд", Gender::Masculine),
        ];
        assert(words@.map_values(|w: WordSpec| w@) =~= seq![
            word_adj("Міжнаро\u{0301}дний"@),
            word_adj("валю\u{0301}тний"@),
            word_noun("фонд"@, Gender::Masculine),
        ]);
        return Some(AbbrSpec { gender_class: "поверхів", words });
    }
    if eq_str(key, "обсє") {
        let words = vec![
            WordSpec::noun("організа\u{0301}ція", Gender::Feminine),
            WordSpec::static_word("з"),
            WordSpec::static_word("безпе\u{0301}ки"),
            WordSpec::static_word("і"),
            WordSpec::static_word("співробі\u{0301}тництва"),
            WordSpec::static_word("в"),
            WordSpec::static_word("Євро\u{0301}пі"),
        ];
        assert(words@.map_values(|w: WordSpec| w@) =~= seq![
            word_noun("організа\u{0301}ція"@, Gender::Feminine),
            word_static("з"@),
            word_static("безпе\u{0301}ки"@),
            word_static("і"@),
            word_static("співробі\u{0301}тництва"@),
            word_static("в"@),
            word_static("Євро\u{0301}пі"@),
        ]);
        return Some(AbbrSpec { gender_class: "гривень", words });
    }
    if eq_str(key, "вмс") {
        let words = vec![
            WordSpec::adj("Військо\u{0301}во-морські\u{0301}"),
            WordSpec::noun_pl("си\u{0301}ли", Gender::Feminine),
        ];
        assert(words@.map_values(|w: WordSpec| w@) =~= seq![
            word_adj("Військо\u{0301}во-морські\u{0301}"@),
            word_noun_pl("си\u{0301}ли"@, Gender::Feminine),
        ]);
        return Some(AbbrSpec { gender_class: "гривень", words });
    }
    if eq_str(key, "пс") {
        let words = vec![
            WordSpec::adj("Пові\u{0301}тряні"),
            WordSpec::noun_pl("си\u{0301}ли", Gender::Feminine),
        ];
        assert(words@.map_values(|w: WordSpec| w@) =~= seq![
            word_adj("Пові\u{0301}тряні"@),
            word_noun_pl("си\u{0301}ли"@, Gender::Feminine),
        ]);
        return Some(AbbrSpec { gender_class: "гривень", words });
    }
    if eq_str(key, "ссо") {
        let words = vec![
            WordSpec::noun_pl("си\u{0301}ли", Gender::Feminine),
            WordSpec::static_word("спеціа\u{0301}льних"),
            WordSpec::static_word("опера\u{0301}цій"),
        ];
        assert(words@.map_values(|w: WordSpec| w@) =~= seq![
            word_noun_pl("си\u{0301}ли"@, Gender::Feminine),
            word_static("спеціа\u{0301}льних"@),
            word_static("опера\u{0301}цій"@),
        ]);
        return Some(AbbrSpec { gender_class: "гривень", words });
    }
    if eq_str(key, "тро") {
        let words = vec![
            WordSpec::adj("територіа\u{0301}льна"),
            WordSpec::noun("оборо\u{0301}на", Gender::Feminine),
        ];
        assert(words@.map_values(|w: WordSpec| w@) =~= seq![
            word_adj("територіа\u{0301}льна"@),
            word_noun("оборо\u{0301}на"@, Gender::Feminine),
        ]);
        return Some(AbbrSpec { gender_class: "гривень", words });
    }
    if eq_str(key, "птрк") {
        let words = vec![
            WordSpec::adj("протита\u{0301}нковий"),
            WordSpec::adj("раке\u{0301}тний"),
            WordSpec::noun("ко\u{0301}мплекс", Gender::Masculine),
        ];
        assert(words@.map_values(|w: WordSpec| w@) =~= seq![
            word_adj("протита\u{0301}нковий"@),
            word_adj("раке\u{0301}тний"@),
            word_noun("ко\u{0301}мплекс"@, Gender::Masculine),
        ]);
        return Some(AbbrSpec { gender_class: "поверхів", words });
    }
    if eq_str(key, "пзрк") {
        let words = vec![
            WordSpec::adj("переносни\u{0301}й"),
            WordSpec::adj("зені\u{0301}тно-раке\u{0301}тний"),
            WordSpec::noun("ко\u{0301}мплекс", Gender::Masculine),
        ];
        assert(words@.map_values(|w: WordSpec| w@) =~= seq![
            word_adj("переносни\u{0301}й"@),
            word_adj("зені\u{0301}тно-раке\u{0301}тний"@),
            word_noun("ко\u{0301}мплекс"@, Gender::Masculine),
        ]);
        return Some(AbbrSpec { gender_class: "поверхів", words });
    }
    if eq_str(key, "рсзв") {
        let words = vec![
            WordSpec::adj("реакти\u{0301}вна"),
            WordSpec::noun("систе\u{0301}ма", Gender::Feminine),
            WordSpec::static_word("за\u{0301}лпового"),
            WordSpec::static_word("вогню\u{0301}"),
        ];
        assert(words@.map_values(|w: WordSpec| w@) =~= seq![
            word_adj("реакти\u{0301}вна"@),
            word_noun("систе\u{0301}ма"@, Gender::Feminine),
            word_static("за\u{0301}лпового"@),
            word_static("вогню\u{0301}"@),
        ]);
        return Some(AbbrSpec { gender_class: "гривень", words });
    }
    if eq_str(key, "бтр") {
        let words = vec![
            WordSpec::noun("бронетранспорте\u{0301}р", Gender::Masculine),
        ];
        assert(words@.map_values(|w: WordSpec| w@) =~= seq![
            word_noun("бронетранспорте\u{0301}р"@, Gender::Masculine),
        ]);
        return Some(AbbrSpec { gender_class: "поверхів", words });
    }
    if eq_str(key, "бмп") {
        let words = vec![
            WordSpec::adj("бойова\u{0301}"),
            WordSpec::noun("маши\u{0301}на", Gender::Feminine),
        ];
        assert(words@.map_values(|w: WordSpec| w@) =~= seq![
            word_adj("бойова\u{0301}"@),
            word_noun("маши\u{0301}на"@, Gender::Feminine),
        ]);
        return Some(AbbrSpec { gender_class: "гривень", words });
    }
    if eq_str(key, "дшв") {
        let words = vec![
            WordSpec::adj("деса\u{0301}нтно-штурмові\u{0301}"),
            WordSpec::noun_pl("війська\u{0301}", Gender::Neuter),
        ];
        assert(words@.map_values(|w: WordSpec| w@) =~= seq![
            word_adj("деса\u{0301}нтно-штурмові\u{0301}"@),
            word_noun_pl("війська\u{0301}"@, Gender::Neuter),
        ]);
        return Some(AbbrSpec { gender_class: "яблук", words });
    }
    None
}

fn lookup_abbr_part3(key: &[char]) -> (r: Option<AbbrSpec>)
    ensures
        match r {
            Some(s) => abbr_part3(key@) == Some(s@),
            None => abbr_part3(key@) is None,
        },
{
    if eq_str(key, "чаес") {
        let words = vec![
            WordSpec::adj("Чорно\u{0301}бильська"),
            WordSpec::adj("а\u{0301}томна"),
            WordSpec::noun("електроста\u{0301}нція", Gender::Feminine),
        ];
        assert(words@.map_values(|w: WordSpec| w@) =~= seq![
            word_adj("Чорно\u{0301}бильська"@),
            word_adj("а\u{0301}томна"@),
            word_noun("електроста\u{0301}нція"@, Gender::Feminine),
        ]);
        return Some(AbbrSpec { gender_class: "гривень", words });
    }
    if eq_str(key, "заес") {
        let words = vec![
            WordSpec::adj("Запорі\u{0301}зька"),
            WordSpec::adj("а\u{0301}томна"),
            WordSpec::noun("електроста\u{0301}нція", Gender::Feminine),
        ];
        assert(words@.map_values(|w: WordSpec| w@) =~= seq![
            word_adj("Запорі\u{0301}зька"@),
            word_adj("а\u{0301}томна"@),
            word_noun("електроста\u{0301}нція"@, Gender::Feminine),
        ]);
        return Some(AbbrSpec { gender_class: "гривень", words });
    }
    if eq_str(key, "хаес") {
        let words = vec![
            WordSpec::adj("Хмельни\u{0301}цька"),
            WordSpec::adj("а\u{0301}томна"),
            WordSpec::noun("електроста\u{0301}нція", Gender::Feminine),
        ];
        assert(words@.map_values(|w: WordSpec| w@) =~= seq![
            word_adj("Хмельни\u{0301}цька"@),
            word_adj("а\u{0301}томна"@),
            word_noun("електроста\u{0301}нція"@, Gender::Feminine),
        ]);
        return Some(AbbrSpec { gender_class: "гривень", words });
    }
    if eq_str(key, "раес") {
        let words = vec![
            WordSpec::adj("Рі\u{0301}вненська"),
            WordSpec::adj("а\u{0301}томна"),
            WordSpec::noun("електроста\u{0301}нція", Gender::Feminine),
        ];
        assert(words@.map_values(|w: WordSpec| w@) =~= seq![
            word_adj("Рі\u{0301}вненська"@),
            word_adj("а\u{0301}томна"@),
            word_noun("електроста\u{0301}нція"@, Gender::Feminine),
        ]);
        return Some(AbbrSpec { gender_class: "гривень", words });
    }
    if eq_str(key, "уз") {
        let words = vec![
            WordSpec::noun("Укрзалізни\u{0301}ця", Gender::Feminine),
        ];
        assert(words@.map_values(|w: WordSpec| w@) =~= seq![
            word_noun("Укрзалізни\u{0301}ця"@, Gender::Feminine),
        ]);
        return Some(AbbrSpec { gender_class: "гривень", words });
    }
    if eq_str(key, "пцу") {
        let words = vec![
            WordSpec::adj("Правосла\u{0301}вна"),
            WordSpec::noun("це\u{0301}рква", Gender::Feminine),
            WordSpec::static_word("Украї\u{0301}ни"),
        ];
        assert(words@.map_values(|w: WordSpec| w@) =~= seq![
            word_adj("Правосла\u{0301}вна"@),
            word_noun("це\u{0301}рква"@, Gender::Feminine),
            word_static("Украї\u{0301}ни"@),
        ]);
        return Some(AbbrSpec { gender_class: "гривень", words });
    }
    if eq_str(key, "дтп") {
        let words = vec![
            WordSpec::adj("доро\u{0301}жньо-тра\u{0301}нспортна"),
            WordSpec::noun("приго\u{0301}да", Gender::Feminine),
        ];
        assert(words@.map_values(|w: WordSpec| w@) =~= seq![
            word_adj("доро\u{0301}жньо-тра\u{0301}нспортна"@),
            word_noun("приго\u{0301}да"@, Gender::Feminine),
        ]);
        return Some(AbbrSpec { gender_class: "гривень", words });
    }
    if eq_str(key, "грві") {
        let words = vec![
            WordSpec::adj("го\u{0301}стра"),
            WordSpec::adj("респірато\u{0301}рна"),
            WordSpec::adj("ві\u{0301}русна"),
            WordSpec::noun("інфе\u{0301}кція", Gender::Feminine),
        ];
        assert(words@.map_values(|w: WordSpec| w@) =~= seq![
            word_adj("го\u{0301}стра"@),
            word_adj("респірато\u{0301}рна"@),
            word_adj("ві\u{0301}русна"@),
            word_noun("інфе\u{0301}кція"@, Gender::Feminine),
        ]);
        return Some(AbbrSpec { gender_class: "гривень", words });
    }
    if eq_str(key, "іт") {
        let words = vec![
            WordSpec::adj("інформаці\u{0301}йні"),
            WordSpec::noun_pl("техноло\u{0301}гії", Gender::Feminine),
        ];
        assert(words@.map_values(|w: WordSpec| w@) =~= seq![
            word_adj("інформаці\u{0301}йні"@),
            word_noun_pl("техноло\u{0301}гії"@, Gender::Feminine),
        ]);
        return Some(AbbrSpec { gender_class: "гривень", words });
    }
    if eq_str(key, "снід") {
        let words = vec![
            WordSpec::noun("синдро\u{0301}м", Gender::Masculine),
            WordSpec::static_word("набу\u{0301}того"),
            WordSpec::static_word("імунодефіци\u{0301}ту"),
        ];
        assert(words@.map_values(|w: WordSpec| w@) =~= seq![
            word_noun("синдро\u{0301}м"@, Gender::Masculine),
            word_static("набу\u{0301}того"@),
            word_static("імунодефіци\u{0301}ту"@),
        ]);
        return Some(AbbrSpec { gender_class: "поверхів", words });
    }
    if eq_str(key, "віл") {
        let words = vec![
            WordSpec::noun("ві\u{0301}рус", Gender::Masculine),
            WordSpec::static_word("імунодефіци\u{0301}ту"),
            WordSpec::static_word("люди\u{0301}ни"),
        ];
        assert(words@.map_values(|w: WordSpec| w@) =~= seq![
            word_noun("ві\u{0301}рус"@, Gender::Masculine),
            word_static("імунодефіци\u{0301}ту"@),
            word_static("люди\u{0301}ни"@),
        ]);
        return Some(AbbrSpec { gender_class: "поверхів", words });
    }
    if eq_str(key, "нато") {
        let words = vec![
            WordSpec::noun("організа\u{0301}ція", Gender::Feminine),
            WordSpec::static_word("Північноатланти\u{0301}чного"),
            WordSpec::static_word("догово\u{0301}ру"),
        ];
        assert(words@.map_values(|w: WordSpec| w@) =~= seq![
            word_noun("організа\u{0301}ція"@, Gender::Feminine),
            word_static("Північноатланти\u{0301}чного"@),
            word_static("догово\u{0301}ру"@),
        ]);
        return Some(AbbrSpec { gender_class: "гривень", words });
    }
    if eq_str(key, "нгу") {
        let words = vec![
            WordSpec::adj("Націона\u{0301}льна"),
            WordSpec::noun("гва\u{0301}рдія", Gender::Feminine),
            WordSpec::static_word("Украї\u{0301}ни"),
        ];
        assert(words@.map_values(|w: WordSpec| w@) =~= seq![
            word_adj("Націона\u{0301}льна"@),
            word_noun("гва\u{0301}рдія"@, Gender::Feminine),
            word_static("Украї\u{0301}ни"@),
        ]);
        return Some(AbbrSpec { gender_class: "гривень", words });
    }
    if eq_str(key, "сау") {
        let words = vec![
            WordSpec::adj("самохі\u{0301}дна"),
            WordSpec::adj("артилері\u{0301}йська"),
            WordSpec::noun("устано\u{0301}вка", Gender::Feminine),
        ];
        assert(words@.map_values(|w: WordSpec| w@) =~= seq![
            word_adj("самохі\u{0301}дна"@),
            word_adj("артилері\u{0301}йська"@),
            word_noun("устано\u{0301}вка"@, Gender::Feminine),
        ]);
        return Some(AbbrSpec { gender_class: "гривень", words });
    }
    if eq_str(key, "ббм") {
        let words = vec![
            WordSpec::adj("бойова\u{0301}"),
            WordSpec::adj("броньо\u{0301}вана"),
            WordSpec::noun("маши\u{0301}на", Gender::Feminine),
        ];
        assert(words@.map_values(|w: WordSpec| w@) =~= seq![
            word_adj("бойова\u{0301}"@),
            word_adj("броньо\u{0301}вана"@),
            word_noun("маши\u{0301}на"@, Gender::Feminine),
        ]);
        return Some(AbbrSpec { gender_class: "гривень", words });
    }
    if eq_str(key, "мзс") {
        let words = vec![
            WordSpec::noun("міністе\u{0301}рство", Gender::Neuter),
            WordSpec::static_word("закордо\u{0301}нних"),
            WordSpec::static_word("справ"),
        ];
        assert(words@.map_values(|w: WordSpec| w@) =~= seq![
            word_noun("міністе\u{0301}рство"@, Gender::Neuter),
            word_static("закордо\u{0301}нних"@),
            word_static("справ"@),
        ]);
        return Some(AbbrSpec { gender_class: "імен", words });
    }
    if eq_str(key, "дпс") {
        let words = vec![
            WordSpec::adj("держа\u{0301}вна"),
            WordSpec::adj("податко\u{0301}ва"),
            WordSpec::noun("слу\u{0301}жба", Gender::Feminine),
        ];
        assert(words@.map_values(|w: WordSpec| w@) =~= seq![
            word_adj("держа\u{0301}вна"@),
            word_adj("податко\u{0301}ва"@),
            word_noun("слу\u{0301}жба"@, Gender::Feminine),
        ]);
        return Some(AbbrSpec { gender_class: "гривень", words });
    }
    if eq_str(key, "дмс") {
        let words = vec![
            WordSpec::adj("держа\u{0301}вна"),
            WordSpec::adj("міграці\u{0301}йна"),
            WordSpec::noun("слу\u{0301}жба", Gender::Feminine),
        ];
        assert(words@.map_values(|w: WordSpec| w@) =~= seq![
            word_adj("держа\u{0301}вна"@),
            word_adj("міграці\u{0301}йна"@),
            word_noun("слу\u{0301}жба"@, Gender::Feminine),
        ]);
        return Some(AbbrSpec { gender_class: "гривень", words });
    }
    if eq_str(key, "назк") {
        let words = vec![
            WordSpec::adj("націона\u{0301}льне"),
            WordSpec::noun("аге\u{0301}нтство", Gender::Neuter),
            WordSpec::static_word("з"),
            WordSpec::static_word("пита\u{0301}нь"),
            WordSpec::static_word("запобіга\u{0301}ння"),
            WordSpec::static_word("кору\u{0301}пції"),
        ];
        assert(words@.map_values(|w: WordSpec| w@) =~= seq![
            word_adj("націона\u{0301}льне"@),
            word_noun("аге\u{0301}нтство"@, Gender::Neuter),
            word_static("з"@),
            word_static("пита\u{0301}нь"@),
            word_static("запобіга\u{0301}ння"@),
            word_static("кору\u{0301}пції"@),
        ]);
        return Some(AbbrSpec { gender_class: "імен", words });
    }
    if eq_str(key, "арма") {
        let words = vec![
            WordSpec::noun("аге\u{0301}нтство", Gender::Neuter),
            WordSpec::static_word("з"),
            WordSpec::static_word("ро\u{0301}зшуку"),
            WordSpec::static_word("та"),
            WordSpec::static_word("мене\u{0301}джменту"),
            WordSpec::static_word("акти\u{0301}вів"),
        ];
        assert(words@.map_values(|w: WordSpec| w@) =~= seq![
            word_noun("аге\u{0301}нтство"@, Gender::Neuter),
            word_static("з"@),
            word_static("ро\u{0301}зшуку"@),
            word_static("та"@),
            word_static("мене\u{0301}джменту"@),
            word_static("акти\u{0301}вів"@),
        ]);
        return Some(AbbrSpec { gender_class: "імен", words });
    }
    None
}

fn lookup_abbr_part4(key: &[char]) -> (r: Option<AbbrSpec>)
    ensures
        match r {
            Some(s) => abbr_part4(key@) == Some(s@),
            None => abbr_part4(key@) is None,
        },
{
    if eq_str(key, "сап") {
        let words = vec![
            WordSpec::adj("спеціалізо\u{0301}вана"),
            WordSpec::adj("антикорупці\u{0301}йна"),
            WordSpec::noun("прокурату\u{0301}ра", Gender::Feminine),
        ];
        assert(words@.map_values(|w: WordSpec| w@) =~= seq![
            word_adj("спеціалізо\u{0301}вана"@),
            word_adj("антикорупці\u{0301}йна"@),
            word_noun("прокурату\u{0301}ра"@, Gender::Feminine),
        ]);
        return Some(AbbrSpec { gender_class: "гривень", words });
    }
    if eq_str(key, "огп") {
        let words = vec![
            WordSpec::noun("о\u{0301}фіс", Gender::Masculine),
            WordSpec::static_word("Генера\u{0301}льного"),
            WordSpec::static_word("прокуро\u{0301}ра"),
        ];
        assert(words@.map_values(|w: WordSpec| w@) =~= seq![
            word_noun("о\u{0301}фіс"@, Gender::Masculine),
            word_static("Генера\u{0301}льного"@),
            word_static("прокуро\u{0301}ра"@),
        ]);
        return Some(AbbrSpec { gender_class: "поверхів", words });
    }
    if eq_str(key, "удо") {
        let words = vec![
            WordSpec::noun("управлі\u{0301}ння", Gender::Neuter),
            WordSpec::static_word("держа\u{0301}вної"),
            WordSpec::static_word("охоро\u{0301}ни"),
        ];
        assert(words@.map_values(|w: WordSpec| w@) =~= seq![
            word_noun("управлі\u{0301}ння"@, Gender::Neuter),
            word_static("держа\u{0301}вної"@),
            word_static("охоро\u{0301}ни"@),
        ]);
        return Some(AbbrSpec { gender_class: "імен", words });
    }
    if eq_str(key, "амку") {
        let words = vec![
            WordSpec::adj("антимонопо\u{0301}льний"),
            WordSpec::noun("коміте\u{0301}т", Gender::Masculine),
            WordSpec::static_word("Украї\u{0301}ни"),
        ];
        assert(words@.map_values(|w: WordSpec| w@) =~= seq![
            word_adj("антимонопо\u{0301}льний"@),
            word_noun("коміте\u{0301}т"@, Gender::Masculine),
            word_static("Украї\u{0301}ни"@),
        ]);
        return Some(AbbrSpec { gender_class: "поверхів", words });
    }
    if eq_str(key, "пфу") {
        let words = vec![
            WordSpec::adj("пенсі\u{0301}йний"),
            WordSpec::noun("фонд", Gender::Masculine),
            WordSpec::static_word("Украї\u{0301}ни"),
        ];
        assert(words@.map_values(|w: WordSpec| w@) =~= seq![
            word_adj("пенсі\u{0301}йний"@),
            word_noun("фонд"@, Gender::Masculine),
            word_static("Украї\u{0301}ни"@),
        ]);
        return Some(AbbrSpec { gender_class: "поверхів", words });
    }
    if eq_str(key, "фдму") {
        let words = vec![
            WordSpec::noun("фонд", Gender::Masculine),
            WordSpec::static_word("держа\u{0301}вного"),
            WordSpec::static_word("ма\u{0301}йна"),
            WordSpec::static_word("Украї\u{0301}ни"),
        ];
        assert(words@.map_values(|w: WordSpec| w@) =~= seq![
            word_noun("фонд"@, Gender::Masculine),
            word_static("держа\u{0301}вного"@),
            word_static("ма\u{0301}йна"@),
            word_static("Украї\u{0301}ни"@),
        ]);
        return Some(AbbrSpec { gender_class: "поверхів", words });
    }
    if eq_str(key, "прат") {
        let words = vec![
            WordSpec::adj("прива\u{0301}тне"),
            WordSpec::adj("акціоне\u{0301}рне"),
            WordSpec::noun("товари\u{0301}ство", Gender::Neuter),
        ];
        assert(words@.map_values(|w: WordSpec| w@) =~= seq![
            word_adj("прива\u{0301}тне"@),
            word_adj("акціоне\u{0301}рне"@),
            word_noun("товари\u{0301}ство"@, Gender::Neuter),
        ]);
        return Some(AbbrSpec { gender_class: "імен", words });
    }
    if eq_str(key, "ат") {
        let words = vec![
            WordSpec::adj("акціоне\u{0301}рне"),
            WordSpec::noun("товари\u{0301}ство", Gender::Neuter),
        ];
        assert(words@.map_values(|w: WordSpec| w@) =~= seq![
            word_adj("акціоне\u{0301}рне"@),
            word_noun("товари\u{0301}ство"@, Gender::Neuter),
        ]);
        return Some(AbbrSpec { gender_class: "імен", words });
    }
    if eq_str(key, "пат") {
        let words = vec![
            WordSpec::adj("публі\u{0301}чне"),
            WordSpec::adj("акціоне\u{0301}рне"),
            WordSpec::noun("товари\u{0301}ство", Gender::Neuter),
        ];
        assert(words@.map_values(|w: WordSpec| w@) =~= seq![
            word_adj("публі\u{0301}чне"@),
            word_adj("акціоне\u{0301}рне"@),
            word_noun("товари\u{0301}ство"@, Gender::Neuter),
        ]);
        return Some(AbbrSpec { gender_class: "імен", words });
    }
    if eq_str(key, "жбк") {
        let words = vec![
            WordSpec::adj("житло\u{0301}во-будіве\u{0301}льний"),
            WordSpec::noun("кооперати\u{0301}в", Gender::Masculine),
        ];
        assert(words@.map_values(|w: WordSpec| w@) =~= seq![
            word_adj("житло\u{0301}во-будіве\u{0301}льний"@),
            word_noun("кооперати\u{0301}в"@, Gender::Masculine),
        ]);
        return Some(AbbrSpec { gender_class: "поверхів", words });
    }
    if eq_str(key, "квед") {
        let words = vec![
            WordSpec::noun("класифіка\u{0301}тор", Gender::Masculine),
            WordSpec::static_word("ви\u{0301}дів"),
            WordSpec::static_word("економі\u{0301}чної"),
            WordSpec::static_word("дія\u{0301}льності"),
        ];
        assert(words@.map_values(|w: WordSpec| w@) =~= seq![
            word_noun("класифіка\u{0301}тор"@, Gender::Masculine),
            word_static("ви\u{0301}дів"@),
            word_static("економі\u{0301}чної"@),
            word_static("дія\u{0301}льності"@),
        ]);
        return Some(AbbrSpec { gender_class: "поверхів", words });
    }
    if eq_str(key, "пдв") {
        let words = vec![
            WordSpec::noun("пода\u{0301}ток", Gender::Masculine),
            WordSpec::static_word("на"),
            WordSpec::static_word("до\u{0301}дану"),
            WordSpec::static_word("ва\u{0301}ртість"),
        ];
        assert(words@.map_values(|w: WordSpec| w@) =~= seq![
            word_noun("пода\u{0301}ток"@, Gender::Masculine),
            word_static("на"@),
            word_static("до\u{0301}дану"@),
            word_static("ва\u{0301}ртість"@),
        ]);
        return Some(AbbrSpec { gender_class: "поверхів", words });
    }
    if eq_str(key, "єсв") {
        let words = vec![
            WordSpec::adj("єди\u{0301}ний"),
            WordSpec::adj("соціа\u{0301}льний"),
            WordSpec::noun("вне\u{0301}сок", Gender::Masculine),
        ];
        assert(words@.map_values(|w: WordSpec| w@) =~= seq![
            word_adj("єди\u{0301}ний"@),
            word_adj("соціа\u{0301}льний"@),
            word_noun("вне\u{0301}сок"@, Gender::Masculine),
        ]);
        return Some(AbbrSpec { gender_class: "поверхів", words });
    }
    if eq_str(key, "пдфо") {
        let words = vec![
            WordSpec::noun("пода\u{0301}ток", Gender::Masculine),
            WordSpec::static_word("на"),
            WordSpec::static_word("дохо\u{0301}ди"),
            WordSpec::static_word("фізи\u{0301}чних"),
            WordSpec::static_word("осі\u{0301}б"),
        ];
        assert(words@.map_values(|w: WordSpec| w@) =~= seq![
            word_noun("пода\u{0301}ток"@, Gender::Masculine),
            word_static("на"@),
            word_static("дохо\u{0301}ди"@),
            word_static("фізи\u{0301}чних"@),
            word_static("осі\u{0301}б"@),
        ]);
        return Some(AbbrSpec { gender_class: "поверхів", words });
    }
    if eq_str(key, "рро") {
        let words = vec![
            WordSpec::noun("реєстра\u{0301}тор", Gender::Masculine),
            WordSpec::static_word("розрахунко\u{0301}вих"),
            WordSpec::static_word("опера\u{0301}цій"),
        ];
        assert(words@.map_values(|w: WordSpec| w@) =~= seq![
            word_noun("реєстра\u{0301}тор"@, Gender::Masculine),
            word_static("розрахунко\u{0301}вих"@),
            word_static("опера\u{0301}цій"@),
        ]);
        return Some(AbbrSpec { gender_class: "поверхів", words });
    }
    if eq_str(key, "прро") {
        let words = vec![
            WordSpec::adj("програ\u{0301}мний"),
            WordSpec::noun("реєстра\u{0301}тор", Gender::Masculine),
            WordSpec::static_word("розрахунко\u{0301}вих"),
            WordSpec::static_word("опера\u{0301}цій"),
        ];
        assert(words@.map_values(|w: WordSpec| w@) =~= seq![
            word_adj("програ\u{0301}мний"@),
            word_noun("реєстра\u{0301}тор"@, Gender::Masculine),
            word_static("розрахунко\u{0301}вих"@),
            word_static("опера\u{0301}цій"@),
        ]);
        return Some(AbbrSpec { gender_class: "поверхів", words });
    }
    if eq_str(key, "мфо") {
        let words = vec![
            WordSpec::adj("міжфілі\u{0301}йний"),
            WordSpec::noun("оборо\u{0301}т", Gender::Masculine),
        ];
        assert(words@.map_values(|w: WordSpec| w@) =~= seq![
            word_adj("міжфілі\u{0301}йний"@),
            word_noun("оборо\u{0301}т"@, Gender::Masculine),
        ]);
        return Some(AbbrSpec { gender_class: "поверхів", words });
    }
    if eq_str(key, "рацс") {
        let words = vec![
            WordSpec::noun("реєстра\u{0301}ція", Gender::Feminine),
            WordSpec::static_word("акти\u{0301}в"),
            WordSpec::static_word("циві\u{0301}льного"),
            WordSpec::static_word("ста\u{0301}ну"),
        ];
        assert(words@.map_values(|w: WordSpec| w@) =~= seq![
            word_noun("реєстра\u{0301}ція"@, Gender::Feminine),
            word_static("акти\u{0301}в"@),
            word_static("циві\u{0301}льного"@),
            word_static("ста\u{0301}ну"@),
        ]);
        return Some(AbbrSpec { gender_class: "гривень", words });
    }
    if eq_str(key, "вооз") {
        let words = vec![
            WordSpec::adj("Всесві\u{0301}тня"),
            WordSpec::noun("організа\u{0301}ція", Gender::Feminine),
            WordSpec::static_word("охоро\u{0301}ни"),
            WordSpec::static_word("здоро\u{0301}в'я"),
        ];
        assert(words@.map_values(|w: WordSpec| w@) =~= seq![
            word_adj("Всесві\u{0301}тня"@),
            word_noun("організа\u{0301}ція"@, Gender::Feminine),
            word_static("охоро\u{0301}ни"@),
            word_static("здоро\u{0301}в'я"@),
        ]);
        return Some(AbbrSpec { gender_class: "гривень", words });
    }
    if eq_str(key, "магате") {
        let words = vec![
            WordSpec::adj("Міжнаро\u{0301}дне"),
            WordSpec::noun("аге\u{0301}нтство", Gender::Neuter),
            WordSpec::static_word("з"),
            WordSpec::static_word("а\u{0301}томної"),
            WordSpec::static_word("енерге\u{0301}тики"),
        ];
        assert(words@.map_values(|w: WordSpec| w@) =~= seq![
            word_adj("Міжнаро\u{0301}дне"@),
            word_noun("аге\u{0301}нтство"@, Gender::Neuter),
            word_static("з"@),
            word_static("а\u{0301}томної"@),
            word_static("енерге\u{0301}тики"@),
        ]);
        return Some(AbbrSpec { gender_class: "імен", words });
    }
    None
}

fn lookup_abbr_part5(key: &[char]) -> (r: Option<AbbrSpec>)
    ensures
        match r {
            Some(s) => abbr_part5(key@) == Some(s@),
            None => abbr_part5(key@) is None,
        },
{
    if eq_str(key, "юнеско") {
        let words = vec![
            WordSpec::noun("організа\u{0301}ція", Gender::Feminine),
            WordSpec::static_word("Об'є\u{0301}днаних"),
            WordSpec::static_word("На\u{0301}цій"),
            WordSpec::static_word("з"),
            WordSpec::static_word("пита\u{0301}нь"),
            WordSpec::static_word("осві\u{0301}ти,"),
            WordSpec::static_word("нау\u{0301}ки"),
            WordSpec::static_word("і"),
            WordSpec::static_word("культу\u{0301}ри"),
        ];
        assert(words@.map_values(|w: WordSpec| w@) =~= seq![
            word_noun("організа\u{0301}ція"@, Gender::Feminine),
            word_static("Об'є\u{0301}днаних"@),
            word_static("На\u{0301}цій"@),
            word_static("з"@),
            word_static("пита\u{0301}нь"@),
            word_static("осві\u{0301}ти,"@),
            word_static("нау\u{0301}ки"@),
            word_static("і"@),
            word_static("культу\u{0301}ри"@),
        ]);
        return Some(AbbrSpec { gender_class: "гривень", words });
    }
    if eq_str(key, "мкчх") {
        let words = vec![
            WordSpec::adj("Міжнаро\u{0301}дний"),
            WordSpec::noun("коміте\u{0301}т", Gender::Masculine),
            WordSpec::static_word("Черво\u{0301}ного"),
            WordSpec::static_word("Хреста\u{0301}"),
        ];
        assert(words@.map_values(|w: WordSpec| w@) =~= seq![
            word_adj("Міжнаро\u{0301}дний"@),
            word_noun("коміте\u{0301}т"@, Gender::Masculine),
            word_static("Черво\u{0301}ного"@),
            word_static("Хреста\u{0301}"@),
        ]);
        return Some(AbbrSpec { gender_class: "поверхів", words });
    }
    if eq_str(key, "мкс") {
        let words = vec![
            WordSpec::adj("Міжнаро\u{0301}дний"),
            WordSpec::adj("криміна\u{0301}льний"),
            WordSpec::noun("суд", Gender::Masculine),
        ];
        assert(words@.map_values(|w: WordSpec| w@) =~= seq![
            word_adj("Міжнаро\u{0301}дний"@),
            word_adj("криміна\u{0301}льний"@),
            word_noun("суд"@, Gender::Masculine),
        ]);
        return Some(AbbrSpec { gender_class: "поверхів", words });
    }
    if eq_str(key, "шмд") {
        let words = vec![
            WordSpec::adj("швидка\u{0301}"),
            WordSpec::adj("меди\u{0301}чна"),
            WordSpec::noun("допомо\u{0301}га", Gender::Feminine),
        ];
        assert(words@.map_values(|w: WordSpec| w@) =~= seq![
            word_adj("швидка\u{0301}"@),
            word_adj("меди\u{0301}чна"@),
            word_noun("допомо\u{0301}га"@, Gender::Feminine),
        ]);
        return Some(AbbrSpec { gender_class: "гривень", words });
    }
    if eq_str(key, "мсек") {
        let words = vec![
            WordSpec::adj("меди\u{0301}ко-соціа\u{0301}льна"),
            WordSpec::adj("експе\u{0301}ртна"),
            WordSpec::noun("комі\u{0301}сія", Gender::Feminine),
        ];
        assert(words@.map_values(|w: WordSpec| w@) =~= seq![
            word_adj("меди\u{0301}ко-соціа\u{0301}льна"@),
            word_adj("експе\u{0301}ртна"@),
            word_noun("комі\u{0301}сія"@, Gender::Feminine),
        ]);
        return Some(AbbrSpec { gender_class: "гривень", words });
    }
    if eq_str(key, "ввк") {
        let words = vec![
            WordSpec::adj("військо\u{0301}во-лі\u{0301}карська"),
            WordSpec::noun("комі\u{0301}сія", Gender::Feminine),
        ];
        assert(words@.map_values(|w: WordSpec| w@) =~= seq![
            word_adj("військо\u{0301}во-лі\u{0301}карська"@),
            word_noun("комі\u{0301}сія"@, Gender::Feminine),
        ]);
        return Some(AbbrSpec { gender_class: "гривень", words });
    }
    if eq_str(key, "нсзу") {
        let words = vec![
            WordSpec::adj("Націона\u{0301}льна"),
            WordSpec::noun("слу\u{0301}жба", Gender::Feminine),
            WordSpec::static_word("здоро\u{0301}в'я"),
            WordSpec::static_word("Украї\u{0301}ни"),
        ];
        assert(words@.map_values(|w: WordSpec| w@) =~= seq![
            word_adj("Націона\u{0301}льна"@),
            word_noun("слу\u{0301}жба"@, Gender::Feminine),
            word_static("здоро\u{0301}в'я"@),
            word_static("Украї\u{0301}ни"@),
        ]);
        return Some(AbbrSpec { gender_class: "гривень", words });
    }
    if eq_str(key, "грз") {
        let words = vec![
            WordSpec::adj("го\u{0301}стре"),
            WordSpec::adj("респірато\u{0301}рне"),
            WordSpec::noun("захво\u{0301}рювання", Gender::Neuter),
        ];
        assert(words@.map_values(|w: WordSpec| w@) =~= seq![
            word_adj("го\u{0301}стре"@),
            word_adj("респірато\u{0301}рне"@),
            word_noun("захво\u{0301}рювання"@, Gender::Neuter),
        ]);
        return Some(AbbrSpec { gender_class: "імен", words });
    }
    if eq_str(key, "зпсш") {
        let words = vec![
            WordSpec::noun_pl("захво\u{0301}рювання", Gender::Neuter),
            WordSpec::static_word("що"),
            WordSpec::static_word("передаю\u{0301}ться"),
            WordSpec::static_word("стате\u{0301}вим"),
            WordSpec::static_word("шля\u{0301}хом"),
        ];
        assert(words@.map_values(|w: WordSpec| w@) =~= seq![
            word_noun_pl("захво\u{0301}рювання"@, Gender::Neuter),
            word_static("що"@),
            word_static("передаю\u{0301}ться"@),
            word_static("стате\u{0301}вим"@),
            word_static("шля\u{0301}хом"@),
        ]);
        return Some(AbbrSpec { gender_class: "імен", words });
    }
    if eq_str(key, "кт") {
        let words = vec![
            WordSpec::adj("комп'ю\u{0301}терна"),
            WordSpec::noun("томогра\u{0301}фія", Gender::Feminine),
        ];
        assert(words@.map_values(|w: WordSpec| w@) =~= seq![
            word_adj("комп'ю\u{0301}терна"@),
            word_noun("томогра\u{0301}фія"@, Gender::Feminine),
        ]);
        return Some(AbbrSpec { gender_class: "гривень", words });
    }
    if eq_str(key, "мрт") {
        let words = vec![
            WordSpec::adj("магні\u{0301}тно-резона\u{0301}нсна"),
            WordSpec::noun("томогра\u{0301}фія", Gender::Feminine),
        ];
        assert(words@.map_values(|w: WordSpec| w@) =~= seq![
            word_adj("магні\u{0301}тно-резона\u{0301}нсна"@),
            word_noun("томогра\u{0301}фія"@, Gender::Feminine),
        ]);
        return Some(AbbrSpec { gender_class: "гривень", words });
    }
    if eq_str(key, "узд") {
        let words = vec![
            WordSpec::adj("ультразвукова\u{0301}"),
            WordSpec::noun("діагно\u{0301}стика", Gender::Feminine),
        ];
        assert(words@.map_values(|w: WordSpec| w@) =~= seq![
            word_adj("ультразвукова\u{0301}"@),
            word_noun("діагно\u{0301}стика"@, Gender::Feminine),
        ]);
        return Some(AbbrSpec { gender_class: "гривень", words });
    }
    if eq_str(key, "екг") {
        let words = vec![
            WordSpec::noun("електрокардіогра\u{0301}ма", Gender::Feminine),
        ];
        assert(words@.map_values(|w: WordSpec| w@) =~= seq![
            word_noun("електрокардіогра\u{0301}ма"@, Gender::Feminine),
        ]);
        return Some(AbbrSpec { gender_class: "гривень", words });
    }
    if eq_str(key, "зно") {
        let words = vec![
            WordSpec::adj("зо\u{0301}внішнє"),
            WordSpec::adj("незале\u{0301}жне"),
            WordSpec::noun("оціню\u{0301}вання", Gender::Neuter),
        ];
        assert(words@.map_values(|w: WordSpec| w@) =~= seq![
            word_adj("зо\u{0301}внішнє"@),
            word_adj("незале\u{0301}жне"@),
            word_noun("оціню\u{0301}вання"@, Gender::Neuter),
        ]);
        return Some(AbbrSpec { gender_class: "імен", words });
    }
    if eq_str(key, "нмт") {
        let words = vec![
            WordSpec::adj("націона\u{0301}льний"),
            WordSpec::adj("мультипредме\u{0301}тний"),
            WordSpec::noun("тест", Gender::Masculine),
        ];
        assert(words@.map_values(|w: WordSpec| w@) =~= seq![
            word_adj("націона\u{0301}льний"@),
            word_adj("мультипредме\u{0301}тний"@),
            word_noun("тест"@, Gender::Masculine),
        ]);
        return Some(AbbrSpec { gender_class: "поверхів", words });
    }
    if eq_str(key, "нуш") {
        let words = vec![
            WordSpec::adj("Но\u{0301}ва"),
            WordSpec::adj("украї\u{0301}нська"),
            WordSpec::noun("шко\u{0301}ла", Gender::Feminine),
        ];
        assert(words@.map_values(|w: WordSpec| w@) =~= seq![
            word_adj("Но\u{0301}ва"@),
            word_adj("украї\u{0301}нська"@),
            word_noun("шко\u{0301}ла"@, Gender::Feminine),
        ]);
        return Some(AbbrSpec { gender_class: "гривень", words });
    }
    if eq_str(key, "жкг") {
        let words = vec![
            WordSpec::adj("житло\u{0301}во-комуна\u{0301}льне"),
            WordSpec::noun("господа\u{0301}рство", Gender::Neuter),
        ];
        assert(words@.map_values(|w: WordSpec| w@) =~= seq![
            word_adj("житло\u{0301}во-комуна\u{0301}льне"@),
            word_noun("господа\u{0301}рство"@, Gender::Neuter),
        ]);
        return Some(AbbrSpec { gender_class: "імен", words });
    }
    if eq_str(key, "жк") {
        let words = vec![
            WordSpec::adj("житлови\u{0301}й"),
            WordSpec::noun("ко\u{0301}мплекс", Gender::Masculine),
        ];
        assert(words@.map_values(|w: WordSpec| w@) =~= seq![
            word_adj("житлови\u{0301}й"@),
            word_noun("ко\u{0301}мплекс"@, Gender::Masculine),
        ]);
        return Some(AbbrSpec { gender_class: "поверхів", words });
    }
    if eq_str(key, "смс") {
        let words = vec![
            WordSpec::adj("коро\u{0301}тке"),
            WordSpec::adj("тексто\u{0301}ве"),
            WordSpec::noun("повідо\u{0301}млення", Gender::Neuter),
        ];
        assert(words@.map_values(|w: WordSpec| w@) =~= seq![
            word_adj("коро\u{0301}тке"@),
            word_adj("тексто\u{0301}ве"@),
            word_noun("повідо\u{0301}млення"@, Gender::Neuter),
        ]);
        return Some(AbbrSpec { gender_class: "імен", words });
    }
    if eq_str(key, "піб") {
        let words = vec![
            WordSpec::noun("прі\u{0301}звище", Gender::Neuter),
            WordSpec::static_word("ім'я\u{0301}"),
            WordSpec::static_word("по"),
            WordSpec::static_word("ба\u{0301}тькові"),
        ];
        assert(words@.map_values(|w: WordSpec| w@) =~= seq![
            word_noun("прі\u{0301}звище"@, Gender::Neuter),
            word_static("ім'я\u{0301}"@),
            word_static("по"@),
            word_static("ба\u{0301}тькові"@),
        ]);
        return Some(AbbrSpec { gender_class: "імен", words });
    }
    None
}

/// Looks up a known abbreviation by its lower-case form.
pub fn lookup_abbr(key: &[char]) -> (r: Option<AbbrSpec>)
    ensures
        match r {
            Some(s) => abbr_entry(key@) == Some(s@),
            None => abbr_entry(key@) is None,
        },
{
    let r0 = lookup_abbr_part0(key);
    if r0.is_some() {
        return r0;
    }
    let r1 = lookup_abbr_part1(key);
    if r1.is_some() {
        return r1;
    }
    let r2 = lookup_abbr_part2(key);
    if r2.is_some() {
        return r2;
    }
    let r3 = lookup_abbr_part3(key);
    if r3.is_some() {
        return r3;
    }
    let r4 = lookup_abbr_part4(key);
    if r4.is_some() {
        return r4;
    }
    let r5 = lookup_abbr_part5(key);
    if r5.is_some() {
        return r5;
    }
    None
}

/// The full name of a unit of measurement or device state, by its
/// lower-case abbreviation.
pub open spec fn unit_name(key: Seq<char>) -> Option<Seq<char>> {
    if key == "v"@ {
        Some("вольт"@)
    } else if key == "mv"@ {
        Some("мілівольт"@)
    } else if key == "kv"@ {
        Some("кіловольт"@)
    } else if key == "a"@ {
        Some("ампер"@)
    } else if key == "ma"@ {
        Some("міліампер"@)
    } else if key == "ka"@ {
        Some("кілоампер"@)
    } else if key == "ua"@ {
        Some("мікроампер"@)
    } else if key == "w"@ {
        Some("ват"@)
    } else if key == "mw"@ {
        Some("міліват"@)
    } else if key == "kw"@ {
        Some("кіловат"@)
    } else if key == "wh"@ {
        Some("ват-годин"@)
    } else if key == "mwh"@ {
        Some("міліват-годин"@)
    } else if key == "kwh"@ {
        Some("кіловат-годин"@)
    } else if key == "ohm"@ {
        Some("ом"@)
    } else if key == "kohm"@ {
        Some("кілоом"@)
    } else if key == "mohm"@ {
        Some("мегаом"@)
    } else if key == "f"@ {
        Some("фарад"@)
    } else if key == "uf"@ {
        Some("мікрофарад"@)
    } else if key == "nf"@ {
        Some("нанофарад"@)
    } else if key == "pf"@ {
        Some("пікофарад"@)
    } else if key == "hz"@ {
        Some("герц"@)
    } else if key == "khz"@ {
        Some("кілогерц"@)
    } else if key == "mhz"@ {
        Some("мегагерц"@)
    } else if key == "ghz"@ {
        Some("гігагерц"@)
    } else if key == "°c"@ {
        Some("градус цельсія"@)
    } else if key == "°f"@ {
        Some("градус фаренгейта"@)
    } else if key == "°k"@ {
        Some("кельвін"@)
    } else if key == "°"@ {
        Some("градус"@)
    } else if key == "%"@ {
        Some("відсоток"@)
    } else if key == "pa"@ {
        Some("паскаль"@)
    } else if key == "kpa"@ {
        Some("кілопаскаль"@)
    } else if key == "lux"@ {
        Some("люкс"@)
    } else if key == "db"@ {
        Some("децибел"@)
    } else if key == "mm"@ {
        Some("міліметр"@)
    } else if key == "cm"@ {
        Some("сантиметр"@)
    } else if key == "m"@ {
        Some("метр"@)
    } else if key == "km"@ {
        Some("кілометр"@)
    } else if key == "мм"@ {
        Some("міліметр"@)
    } else if key == "см"@ {
        Some("сантиметр"@)
    } else if key == "м"@ {
        Some("метр"@)
    } else if key == "км"@ {
        Some("кілометр"@)
    } else if key == "g"@ {
        Some("грам"@)
    } else if key == "kg"@ {
        Some("кілограм"@)
    } else if key == "г"@ {
        Some("грам"@)
    } else if key == "кг"@ {
        Some("кілограм"@)
    } else if key == "l"@ {
        Some("літр"@)
    } else if key == "ml"@ {
        Some("мілілітр"@)
    } else if key == "л"@ {
        Some("літр"@)
    } else if key == "мл"@ {
        Some("мілілітр"@)
    } else if key == "mm/s"@ {
        Some("міліметрів за секунду"@)
    } else if key == "m/s"@ {
        Some("метрів за секунду"@)
    } else if key == "km/h"@ {
        Some("кілометрів на годину"@)
    } else if key == "mmhg"@ {
        Some("міліметрів ртутного стовпця"@)
    } else if key == "on"@ {
        Some("увімкнено"@)
    } else if key == "off"@ {
        Some("вимкнено"@)
    } else if key == "open"@ {
        Some("відчинено"@)
    } else if key == "closed"@ {
        Some("зачинено"@)
    } else if key == "detected"@ {
        Some("виявлено"@)
    } else if key == "clear"@ {
        Some("чисто"@)
    } else if key == "true"@ {
        Some("так"@)
    } else if key == "false"@ {
        Some("ні"@)
    } else if key == "unavailable"@ {
        Some("недоступно"@)
    } else if key == "unknown"@ {
        Some("невідомо"@)
    } else if key == "online"@ {
        Some("у мережі"@)
    } else if key == "offline"@ {
        Some("поза мережею"@)
    } else if key == "playing"@ {
        Some("відтворюється"@)
    } else if key == "paused"@ {
        Some("призупинено"@)
    } else if key == "idle"@ {
        Some("очікування"@)
    } else if key == "home"@ {
        Some("вдома"@)
    } else if key == "not_home"@ {
        Some("не вдома"@)
    } else if key == "away"@ {
        Some("відсутній"@)
    } else {
        None
    }
}

/// Looks up a unit of measurement or device state by its lower-case
/// abbreviation.
pub fn lookup_unit(key: &[char]) -> (r: Option<&'static str>)
    ensures
        match r {
            Some(s) => unit_name(key@) == Some(s@),
            None => unit_name(key@) is None,
        },
{
    if eq_str(key, "v") {
        return Some("вольт");
    }
    if eq_str(key, "mv") {
        return Some("мілівольт");
    }
    if eq_str(key, "kv") {
        return Some("кіловольт");
    }
    if eq_str(key, "a") {
        return Some("ампер");
    }
    if eq_str(key, "ma") {
        return Some("міліампер");
    }
    if eq_str(key, "ka") {
        return Some("кілоампер");
    }
    if eq_str(key, "ua") {
        return Some("мікроампер");
    }
    if eq_str(key, "w") {
        return Some("ват");
    }
    if eq_str(key, "mw") {
        return Some("міліват");
    }
    if eq_str(key, "kw") {
        return Some("кіловат");
    }
    if eq_str(key, "wh") {
        return Some("ват-годин");
    }
    if eq_str(key, "mwh") {
        return Some("міліват-годин");
    }
    if eq_str(key, "kwh") {
        return Some("кіловат-годин");
    }
    if eq_str(key, "ohm") {
        return Some("ом");
    }
    if eq_str(key, "kohm") {
        return Some("кілоом");
    }
    if eq_str(key, "mohm") {
        return Some("мегаом");
    }
    if eq_str(key, "f") {
        return Some("фарад");
    }
    if eq_str(key, "uf") {
        return Some("мікрофарад");
    }
    if eq_str(key, "nf") {
        return Some("нанофарад");
    }
    if eq_str(key, "pf") {
        return Some("пікофарад");
    }
    if eq_str(key, "hz") {
        return Some("герц");
    }
    if eq_str(key, "khz") {
        return Some("кілогерц");
    }
    if eq_str(key, "mhz") {
        return Some("мегагерц");
    }
    if eq_str(key, "ghz") {
        return Some("гігагерц");
    }
    if eq_str(key, "°c") {
        return Some("градус цельсія");
    }
    if eq_str(key, "°f") {
        return Some("градус фаренгейта");
    }
    if eq_str(key, "°k") {
        return Some("кельвін");
    }
    if eq_str(key, "°") {
        return Some("градус");
    }
    if eq_str(key, "%") {
        return Some("відсоток");
    }
    if eq_str(key, "pa") {
        return Some("паскаль");
    }
    if eq_str(key, "kpa") {
        return Some("кілопаскаль");
    }
    if eq_str(key, "lux") {
        return Some("люкс");
    }
    if eq_str(key, "db") {
        return Some("децибел");
    }
    if eq_str(key, "mm") {
        return Some("міліметр");
    }
    if eq_str(key, "cm") {
        return Some("сантиметр");
    }
    if eq_str(key, "m") {
        return Some("метр");
    }
    if eq_str(key, "km") {
        return Some("кілометр");
    }
    if eq_str(key, "мм") {
        return Some("міліметр");
    }
    if eq_str(key, "см") {
        return Some("сантиметр");
    }
    if eq_str(key, "м") {
        return Some("метр");
    }
    if eq_str(key, "км") {
        return Some("кілометр");
    }
    if eq_str(key, "g") {
        return Some("грам");
    }
    if eq_str(key, "kg") {
        return Some("кілограм");
    }
    if eq_str(key, "г") {
        return Some("грам");
    }
    if eq_str(key, "кг") {
        return Some("кілограм");
    }
    if eq_str(key, "l") {
        return Some("літр");
    }
    if eq_str(key, "ml") {
        return Some("мілілітр");
    }
    if eq_str(key, "л") {
        return Some("літр");
    }
    if eq_str(key, "мл") {
        return Some("мілілітр");
    }
    if eq_str(key, "mm/s") {
        return Some("міліметрів за секунду");
    }
    if eq_str(key, "m/s") {
        return Some("метрів за секунду");
    }
    if eq_str(key, "km/h") {
        return Some("кілометрів на годину");
    }
    if eq_str(key, "mmhg") {
        return Some("міліметрів ртутного стовпця");
    }
    if eq_str(key, "on") {
        return Some("увімкнено");
    }
    if eq_str(key, "off") {
        return Some("вимкнено");
    }
    if eq_str(key, "open") {
        return Some("відчинено");
    }
    if eq_str(key, "closed") {
        return Some("зачинено");
    }
    if eq_str(key, "detected") {
        return Some("виявлено");
    }
    if eq_str(key, "clear") {
        return Some("чисто");
    }
    if eq_str(key, "true") {
        return Some("так");
    }
    if eq_str(key, "false") {
        return Some("ні");
    }
    if eq_str(key, "unavailable") {
        return Some("недоступно");
    }
    if eq_str(key, "unknown") {
        return Some("невідомо");
    }
    if eq_str(key, "online") {
        return Some("у мережі");
    }
    if eq_str(key, "offline") {
        return Some("поза мережею");
    }
    if eq_str(key, "playing") {
        return Some("відтворюється");
    }
    if eq_str(key, "paused") {
        return Some("призупинено");
    }
    if eq_str(key, "idle") {
        return Some("очікування");
    }
    if eq_str(key, "home") {
        return Some("вдома");
    }
    if eq_str(key, "not_home") {
        return Some("не вдома");
    }
    if eq_str(key, "away") {
        return Some("відсутній");
    }
    None
}
/// A word that ends in a stress mark has a letter other than "я" before it.
pub open spec fn stress_end_ok(w: Seq<char>) -> bool {
    !(w.len() > 0 && w.last() == '\u{0301}') || (w.len() >= 2 && w[w.len() - 2] != 'я'
        && w[w.len() - 2] != '\u{0301}')
}

/// Every neuter noun of an expansion passes `stress_end_ok`.
pub open spec fn neuter_nouns_unstressed_at_end(m: AbbrModel) -> bool {
    forall|i: int| 0 <= i < m.words.len() && (#[trigger] m.words[i]).role == WordRole::Noun
        && m.words[i].gender == Gender::Neuter
        ==> stress_end_ok(m.words[i].text)
}

proof fn lemma_part0_nouns(key: Seq<char>)
    ensures
        abbr_part0(key) matches Some(m) ==> neuter_nouns_unstressed_at_end(m),
{
    reveal_strlit("міністе\u{0301}рство");
}

proof fn lemma_part1_nouns(key: Seq<char>)
    ensures
        abbr_part1(key) matches Some(m) ==> neuter_nouns_unstressed_at_end(m),
{
    reveal_strlit("міністе\u{0301}рство");
    reveal_strlit("об'є\u{0301}днання");
    reveal_strlit("підпри\u{0301}ємство");
    reveal_strlit("управлі\u{0301}ння");
}

proof fn lemma_part2_nouns(key: Seq<char>)
    ensures
        abbr_part2(key) matches Some(m) ==> neuter_nouns_unstressed_at_end(m),
{
    reveal_strlit("війська\u{0301}");
    reveal_strlit("товари\u{0301}ство");
}

proof fn lemma_part3_nouns(key: Seq<char>)
    ensures
        abbr_part3(key) matches Some(m) ==> neuter_nouns_unstressed_at_end(m),
{
    reveal_strlit("аге\u{0301}нтство");
    reveal_strlit("міністе\u{0301}рство");
}

proof fn lemma_part4_nouns(key: Seq<char>)
    ensures
        abbr_part4(key) matches Some(m) ==> neuter_nouns_unstressed_at_end(m),
{
    reveal_strlit("аге\u{0301}нтство");
    reveal_strlit("товари\u{0301}ство");
    reveal_strlit("управлі\u{0301}ння");
}

proof fn lemma_part5_nouns(key: Seq<char>)
    ensures
        abbr_part5(key) matches Some(m) ==> neuter_nouns_unstressed_at_end(m),
{
    reveal_strlit("господа\u{0301}рство");
    reveal_strlit("захво\u{0301}рювання");
    reveal_strlit("оціню\u{0301}вання");
    reveal_strlit("повідо\u{0301}млення");
    reveal_strlit("прі\u{0301}звище");
}

/// Every neuter noun of a known abbreviation's expansion passes
/// `stress_end_ok`, so that it can be declined.
pub proof fn lemma_abbr_nouns(key: Seq<char>)
    ensures
        abbr_entry(key) matches Some(m) ==> neuter_nouns_unstressed_at_end(m),
{
    lemma_part0_nouns(key);
    lemma_part1_nouns(key);
    lemma_part2_nouns(key);
    lemma_part3_nouns(key);
    lemma_part4_nouns(key);
    lemma_part5_nouns(key);
}

} // verus!
