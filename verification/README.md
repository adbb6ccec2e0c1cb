# ryu-ugc

A tracker for user-generated-content campaigns: brands run campaigns, creators submit posts, posts
are approved or turned down, view counts are refreshed, and payouts accrue against budgets and
caps.

The library under `src/` is written in Verus. Every function states what it returns or changes in
its `requires` and `ensures`, and Verus proves it. `app/` is the process around it: the HTTP
surface, the SQLite file, and the calls to Composio and to the host.

## Layout of the library

| Modules | What they hold |
| --- | --- |
| `records`, `pricing` | the records, their states, and what a post is worth |
| `store`, `tables`, `lists`, `reports`, `rows` | the five tables, their rules, reads, writes and sums |
| `engine`, `payloads` | recording, deciding, refreshing and accruing, and the events these raise |
| `inputs`, `replies`, `render`, `api`, `submission_api`, `payout_api`, `settings` | requests and the replies they get |
| `weburl`, `composio`, `auth`, `catalog`, `connect`, `execute` | screening post URLs, and what is asked of Composio and read from it |
| `app_events`, `runtime`, `refresh`, `clock` | calls to the host, the bearer, the data directory, the preference file and the refresh cadence, time and ids |
| `json`, `text` | JSON values and text |
| `laws` | what holds across several operations |

## What is proved

- A post stands in a campaign at most once, and a submission has at most one payout row.
- An accrual never takes a campaign past its budget or a creator past their cap, re-prices its row
  in place, and changes nothing when it runs twice.
- Money moves forward only: what a person signed off is never re-priced, and a paid post is not
  turned down.
- A refresh that needs a connected account writes nothing.
- A campaign or creator whose record cannot be read is reported as such and never taken for a
  missing one.
- The Composio key is sent to two https hosts only, and no message quotes it, unless the key is
  itself a piece of the message that stands in for one that does.
- The preferences read from their file as they were written, and a missing or corrupt file holds
  none.
- A request without the shared secret is refused, and so is every request where none is set.

## What is trusted

`chrono` for the time, `uuid` for ids, `url` for parsing URLs and hosts, `serde_json` for the
preference file, and std for `String::push` and Unicode lower case. Each stands behind a function
whose comment says what is taken on trust. The files under `app/` are not verified.
