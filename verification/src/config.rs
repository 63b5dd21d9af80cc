//! The values a service is configured with.

use crate::layout::{check_layout, layout_fault, ConfigFault, IdLayout};
use vstd::prelude::*;
use vstd::string::StringExecFns;

verus! {

/// The configured values of the identifier generator of the service.
#[derive(Clone, Copy, Debug)]
pub struct IdGeneratorConfig {
    /// Identity of the node within its datacenter.
    pub worker_id: u32,
    /// Identity of the datacenter.
    pub datacenter_id: u32,
    /// Width of the sequence field.
    pub sequence_bits: u32,
    /// Width of the worker field.
    pub worker_id_bits: u32,
    /// Width of the datacenter field.
    pub datacenter_id_bits: u32,
    /// Width of the timestamp field.
    pub timestamp_bits: u32,
    /// The instant timestamps count from, in milliseconds since the Unix epoch.
    pub epoch: u64,
    /// Largest sequence number.
    pub max_sequence: u32,
    /// Largest worker identity.
    pub max_worker_id: u32,
    /// Largest datacenter identity.
    pub max_datacenter_id: u32,
}

impl IdGeneratorConfig {
    /// The first fault of the configured values, if there is one.
    pub open spec fn fault(self) -> Option<ConfigFault> {
        layout_fault(
            self.worker_id,
            self.datacenter_id,
            self.sequence_bits,
            self.worker_id_bits,
            self.datacenter_id_bits,
            self.timestamp_bits,
            self.max_sequence,
            self.max_worker_id,
            self.max_datacenter_id,
        )
    }

    /// The layout that the configured values describe.
    pub open spec fn layout(self) -> IdLayout {
        IdLayout {
            timestamp_bits: self.timestamp_bits,
            datacenter_id_bits: self.datacenter_id_bits,
            worker_id_bits: self.worker_id_bits,
            sequence_bits: self.sequence_bits,
            datacenter_id: self.datacenter_id,
            worker_id: self.worker_id,
            epoch: self.epoch,
        }
    }

    /// The configured values of a generator that nothing was said about:
    /// worker 0 of datacenter 0, with 42 bits of timestamp counted from the
    /// first instant of 2025, 3 bits of datacenter, 7 of worker and 12 of
    /// sequence.
    pub open spec fn default_spec() -> IdGeneratorConfig {
        IdGeneratorConfig {
            worker_id: 0,
            datacenter_id: 0,
            sequence_bits: 12,
            worker_id_bits: 7,
            datacenter_id_bits: 3,
            timestamp_bits: 42,
            epoch: 1735689600000,
            max_sequence: 4095,
            max_worker_id: 127,
            max_datacenter_id: 7,
        }
    }

    /// Checks the configured values and gives their layout, or their first
    /// fault.
    pub fn check(&self) -> (r: Result<IdLayout, ConfigFault>)
        ensures
            match r {
                Ok(layout) => self.fault() is None && layout == self.layout() && layout.wf()
                    && layout.max_sequence() == self.max_sequence,
                Err(fault) => self.fault() == Some(fault),
            },
    {
        check_layout(
            self.worker_id,
            self.datacenter_id,
            self.sequence_bits,
            self.worker_id_bits,
            self.datacenter_id_bits,
            self.timestamp_bits,
            self.epoch,
            self.max_sequence,
            self.max_worker_id,
            self.max_datacenter_id,
        )
    }
}

impl Default for IdGeneratorConfig {
    /// Worker 0 of datacenter 0, with 42 bits of timestamp counted from the
    /// first instant of 2025, 3 bits of datacenter, 7 of worker and 12 of
    /// sequence.
    fn default() -> (cfg: Self)
        ensures
            cfg == IdGeneratorConfig::default_spec(),
            cfg.fault() is None,
    {
        let sequence_bits: u32 = 12;
        let worker_id_bits: u32 = 7;
        let datacenter_id_bits: u32 = 3;
        let timestamp_bits: u32 = 42;
        proof {
            vstd::arithmetic::power2::lemma2_to64();
        }
        assert((1u32 << 12u32) - 1 == 4095) by (bit_vector);
        assert((1u32 << 7u32) - 1 == 127) by (bit_vector);
        assert((1u32 << 3u32) - 1 == 7) by (bit_vector);
        IdGeneratorConfig {
            worker_id: 0,
            datacenter_id: 0,
            sequence_bits,
            worker_id_bits,
            datacenter_id_bits,
            timestamp_bits,
            epoch: 1735689600000,
            max_sequence: (1u32 << sequence_bits) - 1,
            max_worker_id: (1u32 << worker_id_bits) - 1,
            max_datacenter_id: (1u32 << datacenter_id_bits) - 1,
        }
    }
}

/// The addresses of a remote service.
#[derive(Clone, Debug)]
pub struct RpcConfig {
    pub addr: Vec<String>,
}

/// Where the identifier service is reached.
#[derive(Clone, Debug)]
pub struct IdGeneratorRpcConfig {
    pub rpc_cfg: RpcConfig,
}

impl Default for IdGeneratorRpcConfig {
    /// The identifier service on the local host, port 50051.
    fn default() -> (cfg: Self)
        ensures
            cfg.rpc_cfg.addr@.len() == 1,
            cfg.rpc_cfg.addr@[0]@ == "http://[::1]:50051"@,
    {
        let mut addr: Vec<String> = Vec::new();
        addr.push(String::from_str("http://[::1]:50051"));
        IdGeneratorRpcConfig { rpc_cfg: RpcConfig { addr } }
    }
}

/// Where the user service is reached.
#[derive(Clone, Debug)]
pub struct UserRpcConfig {
    pub rpc_cfg: RpcConfig,
}

impl Default for UserRpcConfig {
    /// The user service on the local host, port 50052.
    fn default() -> (cfg: Self)
        ensures
            cfg.rpc_cfg.addr@.len() == 1,
            cfg.rpc_cfg.addr@[0]@ == "http://[::1]:50052"@,
    {
        let mut addr: Vec<String> = Vec::new();
        addr.push(String::from_str("http://[::1]:50052"));
        UserRpcConfig { rpc_cfg: RpcConfig { addr } }
    }
}

/// The configured values of a server.
#[derive(Clone, Debug)]
pub struct ServerConfig {
    pub addr: String,
    pub port: u16,
    pub id_generator: IdGeneratorConfig,
    /// The addresses the remote-call server listens on, each `[addr]:port`.
    pub grpc_addr: Vec<String>,
    pub user_rpc: UserRpcConfig,
}

impl ServerConfig {
    /// A server at `addr` and `port`, with the default generator and the
    /// default user service.
    pub fn new(addr: String, port: u16, grpc_addr: Vec<String>) -> (cfg: Self)
        ensures
            cfg.addr == addr,
            cfg.port == port,
            cfg.grpc_addr == grpc_addr,
            cfg.id_generator == IdGeneratorConfig::default_spec(),
            cfg.id_generator.fault() is None,
            cfg.user_rpc.rpc_cfg.addr@.len() == 1,
            cfg.user_rpc.rpc_cfg.addr@[0]@ == "http://[::1]:50052"@,
    {
        ServerConfig {
            addr,
            port,
            id_generator: IdGeneratorConfig::default(),
            grpc_addr,
            user_rpc: UserRpcConfig::default(),
        }
    }

    /// The server that tests run against: the local host, port 8080.
    pub fn default_for_test() -> (cfg: Self)
        ensures
            cfg.addr@ == "127.0.0.1"@,
            cfg.port == 8080,
            cfg.grpc_addr@.len() == 1,
            cfg.grpc_addr@[0]@ == "[127.0.0.1]:50051"@,
            cfg.id_generator == IdGeneratorConfig::default_spec(),
            cfg.id_generator.fault() is None,
            cfg.user_rpc.rpc_cfg.addr@.len() == 1,
            cfg.user_rpc.rpc_cfg.addr@[0]@ == "http://[::1]:50052"@,
    {
        let mut grpc_addr: Vec<String> = Vec::new();
        grpc_addr.push(String::from_str("[127.0.0.1]:50051"));
        ServerConfig {
            addr: String::from_str("127.0.0.1"),
            port: 8080,
            id_generator: IdGeneratorConfig::default(),
            grpc_addr,
            user_rpc: UserRpcConfig::default(),
        }
    }
}

} // verus!
