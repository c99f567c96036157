# login_audit

Audits where the users of a Bitrix24 portal sign in from. For every user in
the `USERS` file (`<id> <full name>` per line) a browser session opens the
user's login history, saves it as `<name>_history.html`, and the user is
sorted into four result files: not found, seen from a phone, never seen from
a phone, never seen from a desktop.

- `src/` is the verified library. Every decision of the audit lives there:
  parsing the user list (`users`), the round-robin deal of users to sessions
  (`groups`), the browser procedures as state machines that take a report of
  the last step and return the next step (`scan`, `buttons`, `table`,
  `login`, `user_flow`, `waiting`), the classification and rendering of saved
  histories (`history`), and the result lists (`report`).
- `app/main.rs` is the program: it drives the WebDriver sessions
  (thirtyfour), the files and the tokio tasks, and asks the library what to
  do at each step.
- `tests/` exercises the library on concrete inputs.
