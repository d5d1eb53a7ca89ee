# ua_tts

Normalisation of Ukrainian text for speech synthesis (Piper TTS), written
in Verus: numbers, times, dates, units and abbreviations become words that
agree with their context, and words get their stress marks from a
dictionary.

## Layout

- `src/` — the verified library.
  - `text.rs`, `num.rs` — characters, words and integer parsing.
  - `abbr.rs`, `tables.rs` — declension, abbreviations and units.
  - `numerals.rs` — number words from `num2words`, in the case and gender
    the words around them ask for.
  - `stress.rs` — the stress dictionary and how it is applied.
  - `normalize/` — the token pipeline: paragraphs, preprocessing, lexer,
    context, and the words written out.
  - `wordwise.rs` — the word-by-word normaliser, with times and dates
    rewritten in the text first.
  - `server.rs` — what the speech service decides: requests, answers,
    command lines and log lines.
- `app/` — the program and the HTTP service around the library (files,
  processes, network).
- `tests/` — tests of the library.

Each public function states its result over spec functions; laws that
relate several functions are public proof functions named `law_*`.
