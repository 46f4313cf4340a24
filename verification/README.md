# discord_task_bot

A Discord bot that keeps a task list per server: tasks with a priority, a due
date and up to three reminders, optionally mirrored as a Discord scheduled
event.

- `src/` is the verified library (Verus): the task model and the names under
  which it is stored (`models`), the user's choices (`choices`), reading a
  stored row and its reminder list (`rows`), picking and showing reminders
  (`reminders`), reading due dates with `chrono` (`due`), deciding when a
  reminder goes out (`notify`), applying an edit (`edit`), the text of every
  reply (`messages`), and decimal numbers (`text`).
- `app/` is the bot around it: the slash commands (poise), the SQLite store
  (rusqlite), the clock and the reminder loop (tokio).
- `tests/` runs the library on concrete values.
