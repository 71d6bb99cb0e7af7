# onebot

A bot for OneBot v11 implementations (NapCat, go-cqhttp), with its logic
verified by Verus.

- `src/` is the verified library:
  - `json`: a model of JSON documents, and serde_json behind two trusted
    calls (reading text, writing text);
  - `message`: messages as lists of segments, their builders and readers;
  - `event`: the reports the implementation pushes, read field by field as
    serde reads them, and sorted into an `Event` step by step (`Event::from`)
    as serde's typed readings of the report come back;
  - `event_laws`: what `Event::to_string` writes, `Event::read_document`
    reads back;
  - `request`: the JSON text of each action the bot sends;
  - `api`: connection settings, the choice of a request's echo, where an
    incoming report goes, and what each answer means;
  - `bot`: the actions a bot offers (`BaseBot`);
  - `funs`: Beijing-time timestamps (chrono) and coloured console lines;
  - `modules`: per-group options and the SQL of the chat log.
- `app/` is the program around it: the WebSocket connection and its two
  threads, the requests waiting for their answers, the SQLite database and
  the console, and serde's typed readings of each report (`serde_records`),
  which the library's sorting steps ask for.
- `tests/` runs the library on concrete values.
