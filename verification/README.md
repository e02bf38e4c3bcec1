# movey

The logic of Movey, a registry of Move packages, verified with Verus.

`src/` is the library. Each request or job that alternates between the
store (or GitHub) and decisions is a state machine: `new` gives the first
state and action, `step` takes what the outside world answered and gives
the next state and action, and its contract is a spec function over the
state's model. Laws about whole runs (what every step keeps) are public
proof functions beside each machine.

- `text`: string operations with exact contracts (replace, split, join,
  decimal notation).
- `naming`: package slugs and the rules for names and versions.
- `repo`, `github`: a repository's data and the reading of it from GitHub.
- `crawler`: the search pages, the url and revision of each package found,
  and which packages are published (each once).
- `publish`, `backfill`: publishing a package and its versions; giving a
  package a free slug.
- `downloads`, `upload`: counting a download and publishing with an API
  token, with the answers of the upload API. `downloads` also models the
  store a count runs against (`DownloadStore`, `store_answer`), so that
  laws over whole counts and over two counts in a row can be stated.
- `collaborators`, `ownership`, `invitation`, `removal`: inviting,
  transferring, answering invitations and removing collaborators.
- `package_settings`: the collaborator list of a package's settings page.
- `listing`, `badge`, `tokens`, `pages`, `emails`: listing and search
  parameters, badges, API tokens, page decisions and email jobs.

`app/` is the crawler program: it talks to GitHub, the summarisation
service and PostgreSQL and lets the library decide.

`tests/` runs the library on concrete values.
