# PRodder

PR lifecycle management that demotes failing open PRs to drafts.

For projects requiring human review, preserve human attention by demoting open
PRs that don't pass repo merge requirements to drafts. PRodder runs as a
one-shot job: it searches for open PRs, reads what GitHub reports about each of
them (merge conflicts, combined status, check runs), turns those that are
blocked into drafts and asks GitHub to update the branches that are behind.
Reviews are left to humans.

## Layout

The library under `src/` holds every decision and is verified with Verus:

| module | what it holds |
| --- | --- |
| `text`, `url` | strings, decimal numbers, percent-encoding, repository URLs |
| `data` | structured documents, apart from the format they are written in |
| `json`, `toml_text` | reading and writing them with `serde_json` and `toml` |
| `rules` | what blocks a PR, and what to do about it |
| `config` | `prodder.toml`: its fields, defaults, and the search it stands for |
| `api` | the requests to GitHub |
| `http` | what goes over the wire, and what a reply comes to |
| `drafter` | from the search to the outcome for each PR, step by step |
| `session` | the token, the log level, the launcher |

What the library takes from outside crates is stated as contracts of small
functions next to their callers, each with a comment that says what is relied
upon.

`app/` is the program around it: it makes the requests, reads the environment
and the config file, and logs.

## Running

```sh
GH_TOKEN=<classic PAT with repo write> prodder
```

`PRODDER_API_BASE` points it at another API. Started under the name `launcher`,
the program starts `prodder` and, where `DATADOG_API_KEY` is set, ships its log
with `vector`.

## Configuration

```toml
# Whose pull requests to look at. An empty list stands for the token's owner,
# "*" for everyone.
users = ["dependabot[bot]"]

# A search that takes the place of the one for the users.
filter = ""

# What to do about them.
[behaviors]
required_status_checks = true
mergeable_state = true
update_branch = true
```

All fields are optional; fields that are not listed here are rejected. The
drafter itself does not consult the configuration yet: it searches for the pull
requests that `api` spells out.
