# voting_machine

A command-line voting machine backed by SQLite.

- `src/` is the verified library:
  - `lib.rs`: ballots, offices and candidates; opening and closing a ballot;
    when votes may be tallied; checking a voter against the register.
  - `db.rs`: the voter register and election tables, through fixed SQL. Each
    function states, over the record of statements sent to SQLite, which
    statements it sends, with which arguments, and what it returns for each
    answer.
  - `session.rs`: admin login and menu, the voter login with its age rules,
    the rule of one vote per office, the registration of voters, and the
    deletions asked for from the admin menu (with `exit` to cancel).
  - `election.rs`: the setup of an election as a state machine.
  - `voter.rs`: a voter's session as a state machine.
  - `text.rs`: reading what users type.
  - `dates.rs`: dates of birth, read and written by `chrono`.
  - `sql.rs`: the calls into `rusqlite`, the path each database was opened
    on, and the record of what was sent.
- `tests/` runs the library against in-memory databases.
- `app/main.rs` is the interactive program: prompts, menus and messages.
