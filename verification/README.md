# deckwatch-plugin-aws

A deckwatch plugin that provisions IAM roles, RDS instances and S3 buckets for
Kubernetes workloads, with a single IAM role per workload.

## Layout

- `src/` is the library, verified with Verus: configuration, request signing, the
  calls to the AWS APIs, the flows made of them, and the results. It does no input
  and no output.
- `app/` holds the WASM entry points: it reads the configuration from the host,
  sends the requests that the library asks for, and exchanges JSON with deckwatch.
- `tests/` runs the library.

## How a flow runs

A flow (`apply`, `provision`, `ensure_role`, `ensure_instance`, ...) is a function
from the replies that came back so far to the next call, or to the end. Whoever runs
it performs the call, appends the reply and asks again:

```
loop {
    match apply(&settings, &ctx, &creds, &replies) {
        ApplyStep::Call(call) => replies.push(perform(&call)),
        ApplyStep::Done(result) => return result,
    }
}
```

## What is proved, and what is believed

Every function states its result exactly, over the views of its arguments. The laws
that span functions stand under "Laws" at the end of the modules they are about: that
every header covered by a signature is sent, that a resource that the service
reports as missing is created and one that is there is not created again, that a failure after the role does not cost the role, that provisioning
gives exactly the keys that a resource declares, and so on.

Believed without proof are the SHA-256 digest of `sha2`, the HMAC of `hmac`, and
`String::push` and `String::from_utf8_lossy` of the standard library.

## Annotations

| Annotation | Default | Meaning |
|---|---|---|
| `aws.deckwatch.io/enabled` | `false` | Master opt-in; implied by any rds or s3 annotation, unless that sub-namespace is switched off. |
| `aws.deckwatch.io/role-name` | `<namespace>-<deployment>-role` | Name of the workload's role. |
| `rds.deckwatch.io/enabled` | `false` | Provision a database. |
| `rds.deckwatch.io/identifier` | `<namespace>-<deployment>-db` | At most 63 characters. |
| `rds.deckwatch.io/engine` | `postgres` | |
| `rds.deckwatch.io/instance-class` | `db.t3.micro` | |
| `rds.deckwatch.io/allocated-storage` | `20` | GiB. |
| `rds.deckwatch.io/db-name` | `app` | |
| `rds.deckwatch.io/multi-az` | `false` | |
| `rds.deckwatch.io/subnet-group` | none | |
| `rds.deckwatch.io/security-groups` | none | Comma-separated. |
| `rds.deckwatch.io/iam-auth` | `false` | Injects `DB_IAM_AUTH=true`. |
| `rds.deckwatch.io/snapshot-schedule` | none | EventBridge cron for AWS Backup. |
| `rds.deckwatch.io/snapshot-retention` | `7` | Days. |
| `rds.deckwatch.io/backup-role-arn` | none | Role for `backup.amazonaws.com`. |
| `s3.deckwatch.io/enabled` | `false` | Provision a bucket. |
| `s3.deckwatch.io/bucket-name` | none | The full name is `{BUCKET_PREFIX}{bucket-name}`. |
| `s3.deckwatch.io/region` | `us-east-1` | |
| `s3.deckwatch.io/versioning` | `false` | |
| `s3.deckwatch.io/public-access-block` | `true` | |
| `s3.deckwatch.io/lifecycle-days` | none | Expire objects after this many days. |
