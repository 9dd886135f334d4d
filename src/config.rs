//! The service's configuration, built from the values of its settings.
use vstd::prelude::*;
use crate::error::ServiceError;
use crate::text::{bounded_decimal, parse_bool, parse_u64, parse_usize};

verus! {

/// The configuration of the prover service.
#[derive(Clone, Debug)]
pub struct Config {
    /// Cloud project that holds the broker's subscription and topic.
    pub gcp_project_id: String,
    /// Subscription that delivers proof requests.
    pub prover_subscription: String,
    /// Topic that receives the outcomes.
    pub result_topic: String,
    /// How many jobs may prove at once.
    pub max_concurrent_proofs: usize,
    /// Deadline of one job, in seconds.
    pub proof_timeout_secs: u64,
    /// Path of the program image the engine runs.
    pub elf_path: String,
    /// Base directory of the shared setup artifacts and the workspaces.
    pub output_dir: String,
    /// Whether logs are written as JSON.
    pub json_logging: bool,
    /// Log level (trace, debug, info, warn, error).
    pub log_level: String,
}

/// The raw values of the settings, each absent when not set.
#[derive(Clone, Debug)]
pub struct ConfigVars {
    pub gcp_project_id: Option<String>,
    pub prover_subscription: Option<String>,
    pub result_topic: Option<String>,
    pub max_concurrent_proofs: Option<String>,
    pub proof_timeout_secs: Option<String>,
    pub elf_path: Option<String>,
    pub output_dir: Option<String>,
    pub json_logging: Option<String>,
    pub log_level: Option<String>,
}

/// A setting's value, or its default when it is not set.
pub open spec fn setting(v: Option<String>, default: Seq<char>) -> Seq<char> {
    match v {
        Some(s) => s@,
        None => default,
    }
}

pub open spec fn config_error(r: Result<Config, ServiceError>, message: Seq<char>) -> bool {
    r matches Err(ServiceError::Config(m)) && m@ == message
}

fn setting_or(v: Option<String>, default: &str) -> (r: String)
    ensures
        r@ == setting(v, default@),
{
    match v {
        Some(s) => s,
        None => String::from_str(default),
    }
}

impl Config {
    /// Builds the configuration from the settings' values. The project,
    /// subscription and topic must be set; the concurrency limit (default 2)
    /// and the deadline (default 3600 s) must be unsigned decimal numbers that
    /// fit; JSON logging is on only for `true`. `manifest_dir` gives the
    /// default base directory, its `data` entry.
    pub fn from_vars(vars: ConfigVars, manifest_dir: &str) -> (r: Result<Config, ServiceError>)
        ensures
            vars.gcp_project_id is None ==> config_error(r, "GCP_PROJECT_ID not set"@),
            vars.gcp_project_id is Some && vars.prover_subscription is None ==> config_error(
                r,
                "PROVER_SUBSCRIPTION not set"@,
            ),
            vars.gcp_project_id is Some && vars.prover_subscription is Some && vars.result_topic is None
                ==> config_error(r, "RESULT_TOPIC not set"@),
            vars.gcp_project_id is Some && vars.prover_subscription is Some && vars.result_topic is Some
                && bounded_decimal(setting(vars.max_concurrent_proofs, "2"@), usize::MAX as nat)
                is None ==> config_error(
                r,
                "Invalid MAX_CONCURRENT_PROOFS: "@ + setting(vars.max_concurrent_proofs, "2"@),
            ),
            vars.gcp_project_id is Some && vars.prover_subscription is Some && vars.result_topic is Some
                && bounded_decimal(setting(vars.max_concurrent_proofs, "2"@), usize::MAX as nat)
                is Some && bounded_decimal(setting(vars.proof_timeout_secs, "3600"@), u64::MAX as nat)
                is None ==> config_error(
                r,
                "Invalid PROOF_TIMEOUT_SECS: "@ + setting(vars.proof_timeout_secs, "3600"@),
            ),
            vars.gcp_project_id is Some && vars.prover_subscription is Some && vars.result_topic is Some
                && bounded_decimal(setting(vars.max_concurrent_proofs, "2"@), usize::MAX as nat)
                is Some && bounded_decimal(setting(vars.proof_timeout_secs, "3600"@), u64::MAX as nat)
                is Some ==> (r matches Ok(c) && {
                &&& c.gcp_project_id == vars.gcp_project_id->0
                &&& c.prover_subscription == vars.prover_subscription->0
                &&& c.result_topic == vars.result_topic->0
                &&& Some(c.max_concurrent_proofs as nat) == bounded_decimal(
                    setting(vars.max_concurrent_proofs, "2"@),
                    usize::MAX as nat,
                )
                &&& Some(c.proof_timeout_secs as nat) == bounded_decimal(
                    setting(vars.proof_timeout_secs, "3600"@),
                    u64::MAX as nat,
                )
                &&& c.elf_path@ == setting(vars.elf_path, "../app/elf/riscv32im-pico-zkvm-elf"@)
                &&& c.output_dir@ == setting(vars.output_dir, manifest_dir@ + "/data"@)
                &&& c.json_logging == (setting(vars.json_logging, "false"@) == "true"@)
                &&& c.log_level@ == setting(vars.log_level, "info"@)
            }),
    {
        let ConfigVars {
            gcp_project_id,
            prover_subscription,
            result_topic,
            max_concurrent_proofs,
            proof_timeout_secs,
            elf_path,
            output_dir,
            json_logging,
            log_level,
        } = vars;
        let gcp_project_id = match gcp_project_id {
            Some(v) => v,
            None => {
                return Err(ServiceError::Config(String::from_str("GCP_PROJECT_ID not set")));
            },
        };
        let prover_subscription = match prover_subscription {
            Some(v) => v,
            None => {
                return Err(ServiceError::Config(String::from_str("PROVER_SUBSCRIPTION not set")));
            },
        };
        let result_topic = match result_topic {
            Some(v) => v,
            None => {
                return Err(ServiceError::Config(String::from_str("RESULT_TOPIC not set")));
            },
        };
        let max_text = setting_or(max_concurrent_proofs, "2");
        let max_concurrent_proofs = match parse_usize(max_text.as_str()) {
            Some(v) => v,
            None => {
                return Err(
                    ServiceError::Config(
                        String::from_str("Invalid MAX_CONCURRENT_PROOFS: ").concat(max_text.as_str()),
                    ),
                );
            },
        };
        let timeout_text = setting_or(proof_timeout_secs, "3600");
        let proof_timeout_secs = match parse_u64(timeout_text.as_str()) {
            Some(v) => v,
            None => {
                return Err(
                    ServiceError::Config(
                        String::from_str("Invalid PROOF_TIMEOUT_SECS: ").concat(timeout_text.as_str()),
                    ),
                );
            },
        };
        let elf_path = setting_or(elf_path, "../app/elf/riscv32im-pico-zkvm-elf");
        let output_dir = match output_dir {
            Some(v) => v,
            None => String::from_str(manifest_dir).concat("/data"),
        };
        let logging_text = setting_or(json_logging, "false");
        let json_logging = match parse_bool(logging_text.as_str()) {
            Some(b) => b,
            None => false,
        };
        proof {
            reveal_strlit("true");
            reveal_strlit("false");
        }
        let log_level = setting_or(log_level, "info");
        Ok(
            Config {
                gcp_project_id,
                prover_subscription,
                result_topic,
                max_concurrent_proofs,
                proof_timeout_secs,
                elf_path,
                output_dir,
                json_logging,
                log_level,
            },
        )
    }

    /// Checks the limits, that the program image exists (`elf_present`) and
    /// that the output directory exists and is writable
    /// (`output_dir_usable`).
    pub fn validate(&self, elf_present: bool, output_dir_usable: bool) -> (r: Result<(), ServiceError>)
        ensures
            self.max_concurrent_proofs == 0 ==> config_error_unit(
                r,
                "MAX_CONCURRENT_PROOFS must be greater than 0"@,
            ),
            self.max_concurrent_proofs > 0 && self.proof_timeout_secs == 0 ==> config_error_unit(
                r,
                "PROOF_TIMEOUT_SECS must be greater than 0"@,
            ),
            self.max_concurrent_proofs > 0 && self.proof_timeout_secs > 0 && !elf_present
                ==> config_error_unit(r, "ELF file not found at: "@ + self.elf_path@),
            self.max_concurrent_proofs > 0 && self.proof_timeout_secs > 0 && elf_present
                && !output_dir_usable ==> config_error_unit(
                r,
                "Output directory does not exist or is not writable: "@ + self.output_dir@,
            ),
            self.max_concurrent_proofs > 0 && self.proof_timeout_secs > 0 && elf_present
                && output_dir_usable ==> r is Ok,
    {
        if self.max_concurrent_proofs == 0 {
            return Err(
                ServiceError::Config(String::from_str("MAX_CONCURRENT_PROOFS must be greater than 0")),
            );
        }
        if self.proof_timeout_secs == 0 {
            return Err(
                ServiceError::Config(String::from_str("PROOF_TIMEOUT_SECS must be greater than 0")),
            );
        }
        if !elf_present {
            return Err(
                ServiceError::Config(
                    String::from_str("ELF file not found at: ").concat(self.elf_path.as_str()),
                ),
            );
        }
        if !output_dir_usable {
            return Err(
                ServiceError::Config(
                    String::from_str("Output directory does not exist or is not writable: ").concat(
                        self.output_dir.as_str(),
                    ),
                ),
            );
        }
        Ok(())
    }

    /// The full name of the subscription that delivers requests.
    pub fn subscription_path(&self) -> (r: String)
        ensures
            r@ == "projects/"@ + self.gcp_project_id@ + "/subscriptions/"@ + self.prover_subscription@,
    {
        String::from_str("projects/").concat(self.gcp_project_id.as_str()).concat(
            "/subscriptions/",
        ).concat(self.prover_subscription.as_str())
    }

    /// The full name of the topic that receives outcomes.
    pub fn topic_path(&self) -> (r: String)
        ensures
            r@ == "projects/"@ + self.gcp_project_id@ + "/topics/"@ + self.result_topic@,
    {
        String::from_str("projects/").concat(self.gcp_project_id.as_str()).concat("/topics/").concat(
            self.result_topic.as_str(),
        )
    }
}

pub open spec fn config_error_unit(r: Result<(), ServiceError>, message: Seq<char>) -> bool {
    r matches Err(ServiceError::Config(m)) && m@ == message
}

} // verus!
